//! The price list of the fee table, stated call by call.
use vstd::prelude::*;

use crate::fee_table::{
    spec_function_cost, spec_system_api_cost, FeeTableView, SystemApiCostingEntry,
};
use crate::types::{ComponentAddress, ResourceAddress, SNodeRef, ScryptoValue, ValueId, VaultId};

verus! {

/// On the system, reading the epoch or the transaction hash costs the low
/// tier; every other function costs the high tier.
pub proof fn law_system_call_prices(fees: FeeTableView, f: Seq<char>, len: nat)
    ensures
        (f == "current_epoch"@ || f == "transaction_hash"@) ==> spec_function_cost(
            fees,
            SNodeRef::SystemRef,
            f,
            len,
        ) == fees.fixed_low,
        !(f == "current_epoch"@ || f == "transaction_hash"@) ==> spec_function_cost(
            fees,
            SNodeRef::SystemRef,
            f,
            len,
        ) == fees.fixed_high,
{
}

/// Publishing a package costs the low tier plus two units per byte of call
/// data; every other function of the package static costs the high tier.
pub proof fn law_package_call_prices(fees: FeeTableView, f: Seq<char>, len: nat)
    ensures
        len <= u32::MAX ==> spec_function_cost(fees, SNodeRef::PackageStatic, "publish"@, len)
            == fees.fixed_low + 2 * len,
        f != "publish"@ ==> spec_function_cost(fees, SNodeRef::PackageStatic, f, len)
            == fees.fixed_high,
{
}

/// On the auth zone, popping and pushing cost the low tier; every other
/// function (creating proofs, clearing) costs the high tier.
pub proof fn law_auth_zone_call_prices(fees: FeeTableView, f: Seq<char>, len: nat)
    ensures
        (f == "pop"@ || f == "push"@) ==> spec_function_cost(fees, SNodeRef::AuthZoneRef, f, len)
            == fees.fixed_low,
        !(f == "pop"@ || f == "push"@) ==> spec_function_cost(fees, SNodeRef::AuthZoneRef, f, len)
            == fees.fixed_high,
{
}

/// On a resource manager: updating and locking rules, creating vaults and
/// buckets, updating metadata and non-fungible data, and reading
/// non-fungible data cost the medium tier; reading the behaviour, the
/// metadata, the type, the total supply and whether a non-fungible exists
/// cost the low tier; minting and every other function cost the high tier.
/// Creating a resource costs the high tier.
pub proof fn law_resource_call_prices(
    fees: FeeTableView,
    address: ResourceAddress,
    f: Seq<char>,
    len: nat,
)
    ensures
        (f == "update_auth"@ || f == "lock_auth"@ || f == "create_vault"@ || f == "create_bucket"@
            || f == "update_metadata"@ || f == "update_non_fungible_data"@ || f
            == "non_fungible_data"@) ==> spec_function_cost(
            fees,
            SNodeRef::ResourceRef(address),
            f,
            len,
        ) == fees.fixed_medium,
        (f == "get_behavior"@ || f == "metadata"@ || f == "resource_type"@ || f == "total_supply"@
            || f == "non_fungible_exists"@) ==> spec_function_cost(
            fees,
            SNodeRef::ResourceRef(address),
            f,
            len,
        ) == fees.fixed_low,
        !(f == "update_auth"@ || f == "lock_auth"@ || f == "create_vault"@ || f
            == "create_bucket"@ || f == "update_metadata"@ || f == "update_non_fungible_data"@ || f
            == "non_fungible_data"@ || f == "get_behavior"@ || f == "metadata"@ || f
            == "resource_type"@ || f == "total_supply"@ || f == "non_fungible_exists"@)
            ==> spec_function_cost(fees, SNodeRef::ResourceRef(address), f, len)
            == fees.fixed_high,
        spec_function_cost(fees, SNodeRef::ResourceRef(address), "mint"@, len) == fees.fixed_high,
        spec_function_cost(fees, SNodeRef::ResourceStatic, f, len) == fees.fixed_high,
{
    lemma_function_names();
}

/// On a bucket, taking, taking non-fungibles, listing non-fungible ids and putting cost the
/// medium tier; reading the amount and the resource address and creating a proof cost the low
/// tier; every other function costs the high tier.
pub proof fn law_bucket_call_prices(fees: FeeTableView, bucket: u32, f: Seq<char>, len: nat)
    ensures
        (f == "take"@ || f == "take_non_fungibles"@ || f == "non_fungible_ids"@ || f == "put"@)
            ==> spec_function_cost(fees, SNodeRef::BucketRef(bucket), f, len) == fees.fixed_medium,
        (f == "amount"@ || f == "resource_address"@ || f == "create_proof"@)
            ==> spec_function_cost(fees, SNodeRef::BucketRef(bucket), f, len) == fees.fixed_low,
        !(f == "take"@ || f == "take_non_fungibles"@ || f == "non_fungible_ids"@ ||
            f == "put"@ || f == "amount"@ || f == "resource_address"@ || f == "create_proof"@)
            ==> spec_function_cost(fees, SNodeRef::BucketRef(bucket), f, len) == fees.fixed_high,
{
    lemma_function_names();
}

/// On a proof, reading the amount, the non-fungible ids and the resource address cost the low
/// tier; every other function (cloning among them) costs the high tier.
pub proof fn law_proof_call_prices(fees: FeeTableView, proof_id: u32, f: Seq<char>, len: nat)
    ensures
        (f == "amount"@ || f == "non_fungible_ids"@ || f == "resource_address"@)
            ==> spec_function_cost(fees, SNodeRef::ProofRef(proof_id), f, len) == fees.fixed_low,
        !(f == "amount"@ || f == "non_fungible_ids"@ || f == "resource_address"@)
            ==> spec_function_cost(fees, SNodeRef::ProofRef(proof_id), f, len) == fees.fixed_high,
{
    lemma_function_names();
}

/// On a vault, putting, taking, taking non-fungibles, listing non-fungible ids and paying the fee
/// cost the medium tier; reading the amount and the resource address cost the low tier; every
/// other function (creating proofs among them) costs the high tier.
pub proof fn law_vault_call_prices(fees: FeeTableView, vault: VaultId, f: Seq<char>, len: nat)
    ensures
        (f == "put"@ || f == "take"@ || f == "take_non_fungibles"@ ||
            f == "non_fungible_ids"@ || f == "pay_fee"@)
            ==> spec_function_cost(fees, SNodeRef::VaultRef(vault), f, len) == fees.fixed_medium,
        (f == "amount"@ || f == "resource_address"@)
            ==> spec_function_cost(fees, SNodeRef::VaultRef(vault), f, len) == fees.fixed_low,
        !(f == "put"@ || f == "take"@ || f == "take_non_fungibles"@ ||
            f == "non_fungible_ids"@ || f == "pay_fee"@ || f == "amount"@ ||
            f == "resource_address"@)
            ==> spec_function_cost(fees, SNodeRef::VaultRef(vault), f, len) == fees.fixed_high,
{
    lemma_function_names();
}

/// On the worktop, putting, taking an amount, taking all, taking non-fungibles and draining cost
/// the medium tier; the three assertions of contents cost the low tier; every other function
/// costs the high tier.
pub proof fn law_worktop_call_prices(fees: FeeTableView, f: Seq<char>, len: nat)
    ensures
        (f == "put"@ || f == "take_amount"@ || f == "take_all"@ ||
            f == "take_non_fungibles"@ || f == "drain"@)
            ==> spec_function_cost(fees, SNodeRef::WorktopRef, f, len) == fees.fixed_medium,
        (f == "assert_contains"@ || f == "assert_contains_amount"@ ||
            f == "assert_contains_non_fungibles"@)
            ==> spec_function_cost(fees, SNodeRef::WorktopRef, f, len) == fees.fixed_low,
        !(f == "put"@ || f == "take_amount"@ || f == "take_all"@ ||
            f == "take_non_fungibles"@ || f == "drain"@ || f == "assert_contains"@ ||
            f == "assert_contains_amount"@ || f == "assert_contains_non_fungibles"@)
            ==> spec_function_cost(fees, SNodeRef::WorktopRef, f, len) == fees.fixed_high,
{
    lemma_function_names();
}

/// Invoking a consumed package, the system or a set of non-fungibles costs
/// the high tier; any other consumed value costs the medium tier, whatever
/// the function. Every function of the transaction processor costs the high tier.
pub proof fn law_consumed_and_processor_prices(
    fees: FeeTableView,
    value_id: ValueId,
    f: Seq<char>,
    len: nat,
)
    ensures
        (value_id is Package || value_id is System || value_id is NonFungibles)
            ==> spec_function_cost(fees, SNodeRef::Consumed(value_id), f, len) == fees.fixed_high,
        !(value_id is Package || value_id is System || value_id is NonFungibles)
            ==> spec_function_cost(fees, SNodeRef::Consumed(value_id), f, len)
            == fees.fixed_medium,
        spec_function_cost(fees, SNodeRef::TransactionProcessor, f, len) == fees.fixed_high,
{
}

/// The price of each system call: sized calls grow linearly with their size
/// (two hundred units per unit of size to globalize, one hundred to borrow an
/// unloaded global or return a global, ten per byte of log), invoking a
/// function costs five units per byte and ten per value of its call data
/// above the low tier, and every other call costs a fixed tier whatever its size.
pub proof fn law_system_call_costs(fees: FeeTableView, size: u32, loaded: bool)
    ensures
        spec_system_api_cost(fees, SystemApiCostingEntry::EmitLog { size }) == fees.fixed_low + 10
            * size,
        spec_system_api_cost(fees, SystemApiCostingEntry::Globalize { size }) == fees.fixed_high
            + 200 * size,
        spec_system_api_cost(fees, SystemApiCostingEntry::ReturnGlobal { size }) == fees.fixed_low
            + 100 * size,
        spec_system_api_cost(fees, SystemApiCostingEntry::BorrowGlobal { loaded: false, size })
            == fees.fixed_low + 100 * size,
        spec_system_api_cost(fees, SystemApiCostingEntry::BorrowGlobal { loaded: true, size })
            == fees.fixed_high,
        spec_system_api_cost(fees, SystemApiCostingEntry::Create { size }) == fees.fixed_high,
        spec_system_api_cost(fees, SystemApiCostingEntry::Read { size }) == fees.fixed_medium,
        spec_system_api_cost(fees, SystemApiCostingEntry::Write { size }) == fees.fixed_medium,
        spec_system_api_cost(fees, SystemApiCostingEntry::BorrowLocal) == fees.fixed_medium,
        spec_system_api_cost(fees, SystemApiCostingEntry::ReturnLocal) == fees.fixed_medium,
        spec_system_api_cost(fees, SystemApiCostingEntry::ReadEpoch) == fees.fixed_low,
        spec_system_api_cost(fees, SystemApiCostingEntry::ReadTransactionHash) == fees.fixed_low,
        spec_system_api_cost(fees, SystemApiCostingEntry::ReadTransactionNetwork) == fees.fixed_low,
        spec_system_api_cost(fees, SystemApiCostingEntry::GenerateUuid) == fees.fixed_low,
        spec_system_api_cost(fees, SystemApiCostingEntry::CheckAccessRule) == fees.fixed_medium,
{
}

/// Each extra unit of size adds exactly ten units to a log, two hundred to a
/// globalization and one hundred to returning a global or borrowing an
/// unloaded one: between two sizes the costs differ by that rate times the
/// difference in size.
pub proof fn law_system_call_cost_rates(fees: FeeTableView, size1: u32, size2: u32)
    ensures
        spec_system_api_cost(fees, SystemApiCostingEntry::EmitLog { size: size2 })
            - spec_system_api_cost(fees, SystemApiCostingEntry::EmitLog { size: size1 }) == 10 * (
        size2 - size1),
        spec_system_api_cost(fees, SystemApiCostingEntry::Globalize { size: size2 })
            - spec_system_api_cost(fees, SystemApiCostingEntry::Globalize { size: size1 }) == 200
            * (size2 - size1),
        spec_system_api_cost(fees, SystemApiCostingEntry::ReturnGlobal { size: size2 })
            - spec_system_api_cost(fees, SystemApiCostingEntry::ReturnGlobal { size: size1 })
            == 100 * (size2 - size1),
        spec_system_api_cost(fees, SystemApiCostingEntry::BorrowGlobal { loaded: false, size: size2 })
            - spec_system_api_cost(
            fees,
            SystemApiCostingEntry::BorrowGlobal { loaded: false, size: size1 },
        ) == 100 * (size2 - size1),
{
}

/// Invoking a function costs the low tier plus five units per byte and ten
/// per value of its call data, where that sum fits in a `u32`; the receiver
/// plays no part.
pub proof fn law_invoke_cost(fees: FeeTableView, receiver: &SNodeRef, input: &ScryptoValue)
    ensures
        5 * input.raw@.len() + 10 * input.spec_value_count() <= u32::MAX ==> spec_system_api_cost(
            fees,
            SystemApiCostingEntry::InvokeFunction { receiver, input },
        ) == fees.fixed_low + 5 * input.raw@.len() + 10 * input.spec_value_count(),
{
}

/// Invoking a blueprint or a component costs nothing as a native call.
pub proof fn law_blueprint_and_component_calls_free(
    fees: FeeTableView,
    component: ComponentAddress,
    f: Seq<char>,
    len: nat,
)
    ensures
        spec_function_cost(fees, SNodeRef::Component(component), f, len) == 0,
{
}

/// The length and first character of each function name that the fee table
/// names: no two of them are the same text.
pub proof fn lemma_function_names()
    ensures
        "current_epoch"@.len() == 13 && "current_epoch"@[0] == 'c',
        "transaction_hash"@.len() == 16 && "transaction_hash"@[0] == 't',
        "publish"@.len() == 7 && "publish"@[0] == 'p',
        "pop"@.len() == 3 && "pop"@[0] == 'p',
        "push"@.len() == 4 && "push"@[0] == 'p',
        "update_auth"@.len() == 11 && "update_auth"@[0] == 'u',
        "lock_auth"@.len() == 9 && "lock_auth"@[0] == 'l',
        "create_vault"@.len() == 12 && "create_vault"@[0] == 'c',
        "create_bucket"@.len() == 13 && "create_bucket"@[0] == 'c',
        "update_metadata"@.len() == 15 && "update_metadata"@[0] == 'u',
        "update_non_fungible_data"@.len() == 24 && "update_non_fungible_data"@[0] == 'u',
        "non_fungible_data"@.len() == 17 && "non_fungible_data"@[0] == 'n',
        "get_behavior"@.len() == 12 && "get_behavior"@[0] == 'g',
        "metadata"@.len() == 8 && "metadata"@[0] == 'm',
        "resource_type"@.len() == 13 && "resource_type"@[0] == 'r',
        "total_supply"@.len() == 12 && "total_supply"@[0] == 't',
        "non_fungible_exists"@.len() == 19 && "non_fungible_exists"@[0] == 'n',
        "mint"@.len() == 4 && "mint"@[0] == 'm',
        "take"@.len() == 4 && "take"@[0] == 't',
        "take_non_fungibles"@.len() == 18 && "take_non_fungibles"@[0] == 't',
        "non_fungible_ids"@.len() == 16 && "non_fungible_ids"@[0] == 'n',
        "put"@.len() == 3 && "put"@[0] == 'p',
        "amount"@.len() == 6 && "amount"@[0] == 'a',
        "resource_address"@.len() == 16 && "resource_address"@[0] == 'r',
        "create_proof"@.len() == 12 && "create_proof"@[0] == 'c',
        "pay_fee"@.len() == 7 && "pay_fee"@[0] == 'p',
        "take_amount"@.len() == 11 && "take_amount"@[0] == 't',
        "take_all"@.len() == 8 && "take_all"@[0] == 't',
        "drain"@.len() == 5 && "drain"@[0] == 'd',
        "assert_contains"@.len() == 15 && "assert_contains"@[0] == 'a',
        "assert_contains_amount"@.len() == 22 && "assert_contains_amount"@[0] == 'a',
        "assert_contains_non_fungibles"@.len() == 29 && "assert_contains_non_fungibles"@[0] == 'a',
{
    reveal_strlit("current_epoch");
    reveal_strlit("transaction_hash");
    reveal_strlit("publish");
    reveal_strlit("pop");
    reveal_strlit("push");
    reveal_strlit("update_auth");
    reveal_strlit("lock_auth");
    reveal_strlit("create_vault");
    reveal_strlit("create_bucket");
    reveal_strlit("update_metadata");
    reveal_strlit("update_non_fungible_data");
    reveal_strlit("non_fungible_data");
    reveal_strlit("get_behavior");
    reveal_strlit("metadata");
    reveal_strlit("resource_type");
    reveal_strlit("total_supply");
    reveal_strlit("non_fungible_exists");
    reveal_strlit("mint");
    reveal_strlit("take");
    reveal_strlit("take_non_fungibles");
    reveal_strlit("non_fungible_ids");
    reveal_strlit("put");
    reveal_strlit("amount");
    reveal_strlit("resource_address");
    reveal_strlit("create_proof");
    reveal_strlit("pay_fee");
    reveal_strlit("take_amount");
    reveal_strlit("take_all");
    reveal_strlit("drain");
    reveal_strlit("assert_contains");
    reveal_strlit("assert_contains_amount");
    reveal_strlit("assert_contains_non_fungibles");
}

} // verus!
