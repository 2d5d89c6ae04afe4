use radix_engine_core::errors::{KernelError, RuntimeError};
use radix_engine_core::resource_manager::Decimal;
use radix_engine_core::transaction_receipt::{
    tree_prefix, Level, TransactionFeeSummary, TransactionReceipt, TransactionStatus,
};
use radix_engine_core::types::{PackageAddress, ResourceAddress};

fn receipt(status: TransactionStatus) -> TransactionReceipt {
    TransactionReceipt {
        status,
        transaction_fee: TransactionFeeSummary {
            cost_unit_limit: 10_000_000,
            cost_unit_consumed: 12_345,
            cost_unit_price: Decimal(1),
            burned: Decimal(2),
            tipped: Decimal(0),
        },
        execution_time: Some(3),
        application_logs: vec![(Level::Info, "hi".to_string())],
        new_package_addresses: vec![PackageAddress([0u8; 27])],
        new_component_addresses: vec![],
        new_resource_addresses: vec![ResourceAddress([1u8; 27]), ResourceAddress([2u8; 27])],
    }
}

#[test]
fn expect_success_gives_outputs() {
    let r = receipt(TransactionStatus::Succeeded(vec![vec![1], vec![2, 3]]));
    assert_eq!(r.expect_success(), &vec![vec![1u8], vec![2, 3]]);
    assert_eq!(r.new_entities_count(), 3);
}

#[test]
fn expect_err_accepts_matching_error() {
    let r = receipt(TransactionStatus::Failed(RuntimeError::KernelError(
        KernelError::MaxCallDepthLimitReached,
    )));
    r.expect_err(|e| matches!(e, RuntimeError::KernelError(KernelError::MaxCallDepthLimitReached)));
}

#[test]
fn tree_prefixes() {
    assert_eq!(tree_prefix(0, 3), "├─");
    assert_eq!(tree_prefix(1, 3), "├─");
    assert_eq!(tree_prefix(2, 3), "└─");
    assert_eq!(tree_prefix(0, 1), "└─");
}
