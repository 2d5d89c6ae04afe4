use radix_engine_core::fee_table::{FeeTable, SystemApiCostingEntry};
use radix_engine_core::types::{
    ComponentAddress, HashValue, PackageAddress, ResourceAddress, SNodeRef, ScryptoActor, ScryptoValue,
    ValueId, VaultId,
};

fn value(len: usize, buckets: usize, proofs: usize) -> ScryptoValue {
    ScryptoValue {
        raw: vec![7u8; len],
        bucket_ids: (0..buckets as u32).collect(),
        proof_ids: (0..proofs as u32).collect(),
        vault_ids: vec![],
        kv_store_ids: vec![],
    }
}

#[test]
fn new_fee_table_prices() {
    let t = FeeTable::new();
    assert_eq!(t.tx_decoding_per_byte(), 4);
    assert_eq!(t.tx_verification_per_byte(), 1);
    assert_eq!(t.tx_signature_validation_per_sig(), 3750);
    assert_eq!(t.wasm_instantiation_per_byte(), 500);
    let p = t.wasm_metering_params();
    assert_eq!(p.max_stack_size, 512);
    assert_eq!(p.instruction_cost_rules.grow_memory_cost, 50000);
}

#[test]
fn function_cost_of_system_and_auth_zone() {
    let t = FeeTable::new();
    let v = value(3, 0, 0);
    assert_eq!(t.function_cost(&SNodeRef::SystemRef, "current_epoch", &v), 1000);
    assert_eq!(t.function_cost(&SNodeRef::SystemRef, "transaction_hash", &v), 1000);
    assert_eq!(t.function_cost(&SNodeRef::SystemRef, "other", &v), 10000);
    assert_eq!(t.function_cost(&SNodeRef::AuthZoneRef, "pop", &v), 1000);
    assert_eq!(t.function_cost(&SNodeRef::AuthZoneRef, "push", &v), 1000);
    assert_eq!(t.function_cost(&SNodeRef::AuthZoneRef, "create_proof", &v), 10000);
    assert_eq!(t.function_cost(&SNodeRef::AuthZoneRef, "clear", &v), 10000);
}

#[test]
fn function_cost_of_publish_grows_with_code() {
    let t = FeeTable::new();
    assert_eq!(t.function_cost(&SNodeRef::PackageStatic, "publish", &value(0, 0, 0)), 1000);
    assert_eq!(t.function_cost(&SNodeRef::PackageStatic, "publish", &value(100, 0, 0)), 1200);
    assert_eq!(t.function_cost(&SNodeRef::PackageStatic, "other", &value(100, 0, 0)), 10000);
}

#[test]
fn function_cost_of_instrumented_code_is_zero() {
    let t = FeeTable::new();
    let v = value(50, 2, 1);
    let actor = ScryptoActor::Blueprint(PackageAddress([1u8; 27]), "Hello".to_string());
    assert_eq!(t.function_cost(&SNodeRef::Scrypto(actor), "anything", &v), 0);
    assert_eq!(t.function_cost(&SNodeRef::Component(ComponentAddress([2u8; 27])), "x", &v), 0);
}

#[test]
fn function_cost_of_resources_buckets_proofs_vaults_worktop() {
    let t = FeeTable::new();
    let v = value(1, 0, 0);
    let r = SNodeRef::ResourceRef(ResourceAddress([3u8; 27]));
    assert_eq!(t.function_cost(&r, "update_auth", &v), 5000);
    assert_eq!(t.function_cost(&r, "get_behavior", &v), 1000);
    assert_eq!(t.function_cost(&r, "mint", &v), 10000);
    assert_eq!(t.function_cost(&r, "non_fungible_data", &v), 5000);
    assert_eq!(t.function_cost(&r, "non_fungible_exists", &v), 1000);
    assert_eq!(t.function_cost(&SNodeRef::ResourceStatic, "create", &v), 10000);
    assert_eq!(t.function_cost(&SNodeRef::BucketRef(1), "take", &v), 5000);
    assert_eq!(t.function_cost(&SNodeRef::BucketRef(1), "amount", &v), 1000);
    assert_eq!(t.function_cost(&SNodeRef::BucketRef(1), "burn", &v), 10000);
    assert_eq!(t.function_cost(&SNodeRef::ProofRef(1), "amount", &v), 1000);
    assert_eq!(t.function_cost(&SNodeRef::ProofRef(1), "clone", &v), 10000);
    let vault = SNodeRef::VaultRef(VaultId { tx_hash: HashValue([0u8; 32]), index: 1 });
    assert_eq!(t.function_cost(&vault, "pay_fee", &v), 5000);
    assert_eq!(t.function_cost(&vault, "amount", &v), 1000);
    assert_eq!(t.function_cost(&vault, "create_proof", &v), 10000);
    assert_eq!(t.function_cost(&SNodeRef::TransactionProcessor, "run", &v), 10000);
    assert_eq!(t.function_cost(&SNodeRef::WorktopRef, "drain", &v), 5000);
    assert_eq!(t.function_cost(&SNodeRef::WorktopRef, "assert_contains", &v), 1000);
    assert_eq!(t.function_cost(&SNodeRef::WorktopRef, "unknown", &v), 10000);
}

#[test]
fn function_cost_of_consumed_values() {
    let t = FeeTable::new();
    let v = value(1, 0, 0);
    assert_eq!(t.function_cost(&SNodeRef::Consumed(ValueId::Bucket(1)), "burn", &v), 5000);
    assert_eq!(t.function_cost(&SNodeRef::Consumed(ValueId::Worktop), "drop", &v), 5000);
    assert_eq!(t.function_cost(&SNodeRef::Consumed(ValueId::System), "x", &v), 10000);
    assert_eq!(
        t.function_cost(&SNodeRef::Consumed(ValueId::Package(PackageAddress([0u8; 27]))), "x", &v),
        10000
    );
    assert_eq!(
        t.function_cost(&SNodeRef::Consumed(ValueId::NonFungibles(ResourceAddress([0u8; 27]))), "x", &v),
        10000
    );
}

#[test]
fn system_api_costs() {
    let t = FeeTable::new();
    let v = value(10, 2, 1);
    let recv = SNodeRef::SystemRef;
    assert_eq!(
        t.system_api_cost(SystemApiCostingEntry::InvokeFunction { receiver: &recv, input: &v }),
        1000 + 5 * 10 + 10 * 3
    );
    assert_eq!(t.system_api_cost(SystemApiCostingEntry::Globalize { size: 3 }), 10600);
    assert_eq!(t.system_api_cost(SystemApiCostingEntry::BorrowGlobal { loaded: true, size: 3 }), 10000);
    assert_eq!(t.system_api_cost(SystemApiCostingEntry::BorrowGlobal { loaded: false, size: 3 }), 1300);
    assert_eq!(t.system_api_cost(SystemApiCostingEntry::BorrowLocal), 5000);
    assert_eq!(t.system_api_cost(SystemApiCostingEntry::ReturnGlobal { size: 2 }), 1200);
    assert_eq!(t.system_api_cost(SystemApiCostingEntry::ReturnLocal), 5000);
    assert_eq!(t.system_api_cost(SystemApiCostingEntry::Create { size: 9 }), 10000);
    assert_eq!(t.system_api_cost(SystemApiCostingEntry::Read { size: 9 }), 5000);
    assert_eq!(t.system_api_cost(SystemApiCostingEntry::Write { size: 9 }), 5000);
    assert_eq!(t.system_api_cost(SystemApiCostingEntry::ReadEpoch), 1000);
    assert_eq!(t.system_api_cost(SystemApiCostingEntry::ReadTransactionHash), 1000);
    assert_eq!(t.system_api_cost(SystemApiCostingEntry::ReadTransactionNetwork), 1000);
    assert_eq!(t.system_api_cost(SystemApiCostingEntry::GenerateUuid), 1000);
    assert_eq!(t.system_api_cost(SystemApiCostingEntry::EmitLog { size: 5 }), 1050);
    assert_eq!(t.system_api_cost(SystemApiCostingEntry::CheckAccessRule), 5000);
}

#[test]
fn system_api_cost_is_monotone_in_size() {
    let t = FeeTable::new();
    for (a, b) in [(0u32, 1u32), (5, 5), (10, 1000)] {
        assert!(
            t.system_api_cost(SystemApiCostingEntry::Globalize { size: a })
                <= t.system_api_cost(SystemApiCostingEntry::Globalize { size: b })
        );
        assert!(
            t.system_api_cost(SystemApiCostingEntry::EmitLog { size: a })
                <= t.system_api_cost(SystemApiCostingEntry::EmitLog { size: b })
        );
        assert_eq!(
            t.system_api_cost(SystemApiCostingEntry::BorrowGlobal { loaded: true, size: a }),
            t.system_api_cost(SystemApiCostingEntry::BorrowGlobal { loaded: true, size: b })
        );
    }
}

#[test]
fn native_calls_cost_at_most_the_high_tier() {
    let t = FeeTable::new();
    let v = value(4, 0, 0);
    let receivers = vec![
        SNodeRef::SystemRef,
        SNodeRef::AuthZoneRef,
        SNodeRef::ResourceStatic,
        SNodeRef::BucketRef(0),
        SNodeRef::ProofRef(0),
        SNodeRef::WorktopRef,
        SNodeRef::TransactionProcessor,
    ];
    for r in &receivers {
        for f in ["take", "put", "amount", "pop", "current_epoch", "zzz"] {
            let c = t.function_cost(r, f, &v);
            assert!(c == 1000 || c == 5000 || c == 10000);
        }
    }
}
