//! The cost, in cost units, of native functions and of system calls.
use vstd::prelude::*;

use crate::text::str_equal;
use crate::types::{SNodeRef, ScryptoValue, ValueId};

verus! {

/// The rules by which wasm instructions are charged.
#[derive(Clone, Copy, Debug)]
pub struct InstructionCostRules {
    /// The cost of growing the linear memory by one page.
    pub grow_memory_cost: u32,
}

impl InstructionCostRules {
    /// Tiered instruction costs, with the given cost for growing memory.
    pub fn tiered(grow_memory_cost: u32) -> (r: Self)
        ensures
            r.grow_memory_cost == grow_memory_cost,
    {
        InstructionCostRules { grow_memory_cost }
    }
}

/// The parameters with which wasm code is instrumented for metering.
#[derive(Clone, Copy, Debug)]
pub struct WasmMeteringParams {
    /// How instructions are charged.
    pub instruction_cost_rules: InstructionCostRules,
    /// The largest stack height that the code may reach.
    pub max_stack_size: u32,
}

impl WasmMeteringParams {
    /// Metering parameters from cost rules and a stack limit.
    pub fn new(instruction_cost_rules: InstructionCostRules, max_stack_size: u32) -> (r: Self)
        ensures
            r.instruction_cost_rules == instruction_cost_rules,
            r.max_stack_size == max_stack_size,
    {
        WasmMeteringParams { instruction_cost_rules, max_stack_size }
    }
}

/// A system call, as it is charged.
pub enum SystemApiCostingEntry<'a> {
    /// Invokes a function, native or wasm.
    InvokeFunction { receiver: &'a SNodeRef, input: &'a ScryptoValue },
    /// Globalizes a RE value.
    Globalize { size: u32 },
    /// Borrows a globalized value.
    BorrowGlobal { loaded: bool, size: u32 },
    /// Borrows a local value.
    BorrowLocal,
    /// Returns a borrowed value.
    ReturnGlobal { size: u32 },
    /// Returns a borrowed value.
    ReturnLocal,
    /// Creates a RE value.
    Create { size: u32 },
    /// Reads the data of a RE value.
    Read { size: u32 },
    /// Updates the data of a RE Value.
    Write { size: u32 },
    /// Reads the current epoch.
    ReadEpoch,
    /// Read the transaction hash.
    ReadTransactionHash,
    /// Read the transaction network.
    ReadTransactionNetwork,
    /// Generates a UUID.
    GenerateUuid,
    /// Emits a log.
    EmitLog { size: u32 },
    /// Checks if an access rule can be satisfied by the given proofs.
    CheckAccessRule,
}

/// The prices of the engine's operations.
pub struct FeeTable {
    tx_decoding_per_byte: u32,
    tx_verification_per_byte: u32,
    tx_signature_validation_per_sig: u32,
    fixed_low: u32,
    fixed_medium: u32,
    fixed_high: u32,
    wasm_instantiation_per_byte: u32,
    wasm_metering_params: WasmMeteringParams,
}

/// The prices that a fee table holds.
pub struct FeeTableView {
    pub tx_decoding_per_byte: u32,
    pub tx_verification_per_byte: u32,
    pub tx_signature_validation_per_sig: u32,
    pub fixed_low: u32,
    pub fixed_medium: u32,
    pub fixed_high: u32,
    pub wasm_instantiation_per_byte: u32,
    pub wasm_metering_params: WasmMeteringParams,
}

impl View for FeeTable {
    type V = FeeTableView;

    closed spec fn view(&self) -> FeeTableView {
        FeeTableView {
            tx_decoding_per_byte: self.tx_decoding_per_byte,
            tx_verification_per_byte: self.tx_verification_per_byte,
            tx_signature_validation_per_sig: self.tx_signature_validation_per_sig,
            fixed_low: self.fixed_low,
            fixed_medium: self.fixed_medium,
            fixed_high: self.fixed_high,
            wasm_instantiation_per_byte: self.wasm_instantiation_per_byte,
            wasm_metering_params: self.wasm_metering_params,
        }
    }
}

/// The three fixed price tiers, from cheapest to dearest.
pub enum Tier {
    Low,
    Medium,
    High,
}

/// The price of a tier in a fee table.
pub open spec fn tier_price(fees: FeeTableView, tier: Tier) -> int {
    match tier {
        Tier::Low => fees.fixed_low as int,
        Tier::Medium => fees.fixed_medium as int,
        Tier::High => fees.fixed_high as int,
    }
}

/// The tier of a native call on the system.
pub open spec fn system_tier(f: Seq<char>) -> Tier {
    if f == "current_epoch"@ || f == "transaction_hash"@ {
        Tier::Low
    } else {
        Tier::High
    }
}

/// The tier of a native call on the auth zone.
pub open spec fn auth_zone_tier(f: Seq<char>) -> Tier {
    if f == "pop"@ || f == "push"@ {
        Tier::Low
    } else {
        Tier::High
    }
}

/// The tier of a native call on a resource manager.
pub open spec fn resource_tier(f: Seq<char>) -> Tier {
    if f == "update_auth"@ || f == "lock_auth"@ || f == "create_vault"@ || f == "create_bucket"@
        || f == "update_metadata"@ || f == "update_non_fungible_data"@
        || f == "non_fungible_data"@ {
        Tier::Medium
    } else if f == "get_behavior"@ || f == "metadata"@ || f == "resource_type"@
        || f == "total_supply"@ || f == "non_fungible_exists"@ {
        Tier::Low
    } else {
        Tier::High
    }
}

/// The tier of invoking a value that the call consumes.
pub open spec fn consumed_tier(value_id: ValueId) -> Tier {
    match value_id {
        ValueId::Package(_) | ValueId::System | ValueId::NonFungibles(_) => Tier::High,
        _ => Tier::Medium,
    }
}

/// The tier of a native call on a bucket.
pub open spec fn bucket_tier(f: Seq<char>) -> Tier {
    if f == "take"@ || f == "take_non_fungibles"@ || f == "non_fungible_ids"@ || f == "put"@ {
        Tier::Medium
    } else if f == "amount"@ || f == "resource_address"@ || f == "create_proof"@ {
        Tier::Low
    } else {
        Tier::High
    }
}

/// The tier of a native call on a proof.
pub open spec fn proof_tier(f: Seq<char>) -> Tier {
    if f == "amount"@ || f == "non_fungible_ids"@ || f == "resource_address"@ {
        Tier::Low
    } else {
        Tier::High
    }
}

/// The tier of a native call on a vault.
pub open spec fn vault_tier(f: Seq<char>) -> Tier {
    if f == "put"@ || f == "take"@ || f == "take_non_fungibles"@ || f == "non_fungible_ids"@
        || f == "pay_fee"@ {
        Tier::Medium
    } else if f == "amount"@ || f == "resource_address"@ {
        Tier::Low
    } else {
        Tier::High
    }
}

/// The tier of a native call on the worktop.
pub open spec fn worktop_tier(f: Seq<char>) -> Tier {
    if f == "put"@ || f == "take_amount"@ || f == "take_all"@ || f == "take_non_fungibles"@
        || f == "drain"@ {
        Tier::Medium
    } else if f == "assert_contains"@ || f == "assert_contains_amount"@
        || f == "assert_contains_non_fungibles"@ {
        Tier::Low
    } else {
        Tier::High
    }
}

/// The cost of publishing a package whose call data is `input_len` bytes long:
/// the low tier plus two units per byte, the length taken as a `u32`.
pub open spec fn publish_cost(fees: FeeTableView, input_len: nat) -> int {
    fees.fixed_low + (input_len as u32) * 2
}

/// The cost of invoking `fn_ident` on `receiver` with call data of
/// `input_len` bytes. Blueprints and components cost nothing here: their code
/// is charged through instrumentation.
pub open spec fn spec_function_cost(
    fees: FeeTableView,
    receiver: SNodeRef,
    fn_ident: Seq<char>,
    input_len: nat,
) -> int {
    match receiver {
        SNodeRef::SystemRef => tier_price(fees, system_tier(fn_ident)),
        SNodeRef::PackageStatic => if fn_ident == "publish"@ {
            publish_cost(fees, input_len)
        } else {
            fees.fixed_high as int
        },
        SNodeRef::AuthZoneRef => tier_price(fees, auth_zone_tier(fn_ident)),
        SNodeRef::Scrypto(_) => 0,
        SNodeRef::Component(_) => 0,
        SNodeRef::ResourceStatic => fees.fixed_high as int,
        SNodeRef::ResourceRef(_) => tier_price(fees, resource_tier(fn_ident)),
        SNodeRef::Consumed(value_id) => tier_price(fees, consumed_tier(value_id)),
        SNodeRef::BucketRef(_) => tier_price(fees, bucket_tier(fn_ident)),
        SNodeRef::ProofRef(_) => tier_price(fees, proof_tier(fn_ident)),
        SNodeRef::VaultRef(_) => tier_price(fees, vault_tier(fn_ident)),
        SNodeRef::TransactionProcessor => fees.fixed_high as int,
        SNodeRef::WorktopRef => tier_price(fees, worktop_tier(fn_ident)),
    }
}

/// The cost of a system call. The cost of invoking a function is computed in
/// `usize` and then taken as a `u32`.
pub open spec fn spec_system_api_cost(fees: FeeTableView, entry: SystemApiCostingEntry) -> int {
    match entry {
        SystemApiCostingEntry::InvokeFunction { input, .. } => fees.fixed_low + ((5
            * input.raw@.len() + 10 * input.spec_value_count()) as u32),
        SystemApiCostingEntry::Globalize { size } => fees.fixed_high + 200 * size,
        SystemApiCostingEntry::BorrowGlobal { loaded, size } => if loaded {
            fees.fixed_high as int
        } else {
            fees.fixed_low + 100 * size
        },
        SystemApiCostingEntry::BorrowLocal => fees.fixed_medium as int,
        SystemApiCostingEntry::ReturnGlobal { size } => fees.fixed_low + 100 * size,
        SystemApiCostingEntry::ReturnLocal => fees.fixed_medium as int,
        SystemApiCostingEntry::Create { .. } => fees.fixed_high as int,
        SystemApiCostingEntry::Read { .. } => fees.fixed_medium as int,
        SystemApiCostingEntry::Write { .. } => fees.fixed_medium as int,
        SystemApiCostingEntry::ReadEpoch => fees.fixed_low as int,
        SystemApiCostingEntry::ReadTransactionHash => fees.fixed_low as int,
        SystemApiCostingEntry::ReadTransactionNetwork => fees.fixed_low as int,
        SystemApiCostingEntry::GenerateUuid => fees.fixed_low as int,
        SystemApiCostingEntry::EmitLog { size } => fees.fixed_low + 10 * size,
        SystemApiCostingEntry::CheckAccessRule => fees.fixed_medium as int,
    }
}

/// Whether the arithmetic of a system call's cost stays within machine
/// integers: the invocation cost within `usize` before it is taken as a `u32`,
/// and every sum and product within `u32`.
pub open spec fn system_api_cost_fits(fees: FeeTableView, entry: SystemApiCostingEntry) -> bool {
    match entry {
        SystemApiCostingEntry::InvokeFunction { input, .. } => {
            &&& input.spec_value_count() <= usize::MAX
            &&& 5 * input.raw@.len() + 10 * input.spec_value_count() <= usize::MAX
            &&& spec_system_api_cost(fees, entry) <= u32::MAX
        },
        _ => spec_system_api_cost(fees, entry) <= u32::MAX,
    }
}

impl FeeTable {
    /// The fee table of the engine.
    pub fn new() -> (r: Self)
        ensures
            r@.tx_decoding_per_byte == 4,
            r@.tx_verification_per_byte == 1,
            r@.tx_signature_validation_per_sig == 3750,
            r@.wasm_instantiation_per_byte == 500,
            r@.fixed_low == 1000,
            r@.fixed_medium == 5000,
            r@.fixed_high == 10000,
            r@.wasm_metering_params.instruction_cost_rules.grow_memory_cost == 50000,
            r@.wasm_metering_params.max_stack_size == 512,
    {
        FeeTable {
            tx_decoding_per_byte: 4,
            tx_verification_per_byte: 1,
            tx_signature_validation_per_sig: 3750,
            wasm_instantiation_per_byte: 500,
            fixed_low: 1000,
            fixed_medium: 5_000,
            fixed_high: 10_000,
            wasm_metering_params: WasmMeteringParams::new(InstructionCostRules::tiered(50000), 512),
        }
    }

    /// The cost of decoding one byte of a transaction.
    pub fn tx_decoding_per_byte(&self) -> (r: u32)
        ensures
            r == self@.tx_decoding_per_byte,
    {
        self.tx_decoding_per_byte
    }

    /// The cost of verifying one byte of a transaction.
    pub fn tx_verification_per_byte(&self) -> (r: u32)
        ensures
            r == self@.tx_verification_per_byte,
    {
        self.tx_verification_per_byte
    }

    /// The cost of validating one signature of a transaction.
    pub fn tx_signature_validation_per_sig(&self) -> (r: u32)
        ensures
            r == self@.tx_signature_validation_per_sig,
    {
        self.tx_signature_validation_per_sig
    }

    /// The cost of instantiating one byte of wasm code.
    pub fn wasm_instantiation_per_byte(&self) -> (r: u32)
        ensures
            r == self@.wasm_instantiation_per_byte,
    {
        self.wasm_instantiation_per_byte
    }

    /// The parameters with which wasm code is metered.
    pub fn wasm_metering_params(&self) -> (r: WasmMeteringParams)
        ensures
            r == self@.wasm_metering_params,
    {
        self.wasm_metering_params
    }

    fn tier(&self, tier: Tier) -> (r: u32)
        ensures
            r == tier_price(self@, tier),
    {
        match tier {
            Tier::Low => self.fixed_low,
            Tier::Medium => self.fixed_medium,
            Tier::High => self.fixed_high,
        }
    }

    /// The cost of invoking `fn_ident` on `receiver` with call data `input`.
    pub fn function_cost(&self, receiver: &SNodeRef, fn_ident: &str, input: &ScryptoValue) -> (r:
        u32)
        requires
            spec_function_cost(self@, *receiver, fn_ident@, input.raw@.len()) <= u32::MAX,
        ensures
            r == spec_function_cost(self@, *receiver, fn_ident@, input.raw@.len()),
    {
        match receiver {
            SNodeRef::SystemRef => self.tier(system_tier_of(fn_ident)),
            SNodeRef::PackageStatic => {
                if str_equal(fn_ident, "publish") {
                    self.fixed_low + input.raw.len() as u32 * 2
                } else {
                    self.fixed_high
                }
            },
            SNodeRef::AuthZoneRef => self.tier(auth_zone_tier_of(fn_ident)),
            SNodeRef::Scrypto(_) => 0,
            SNodeRef::Component(_) => 0,
            SNodeRef::ResourceStatic => self.fixed_high,
            SNodeRef::ResourceRef(_) => self.tier(resource_tier_of(fn_ident)),
            SNodeRef::Consumed(value_id) => self.tier(consumed_tier_of(value_id)),
            SNodeRef::BucketRef(_) => self.tier(bucket_tier_of(fn_ident)),
            SNodeRef::ProofRef(_) => self.tier(proof_tier_of(fn_ident)),
            SNodeRef::VaultRef(_) => self.tier(vault_tier_of(fn_ident)),
            SNodeRef::TransactionProcessor => self.fixed_high,
            SNodeRef::WorktopRef => self.tier(worktop_tier_of(fn_ident)),
        }
    }

    /// The cost of a system call.
    pub fn system_api_cost(&self, entry: SystemApiCostingEntry) -> (r: u32)
        requires
            system_api_cost_fits(self@, entry),
        ensures
            r == spec_system_api_cost(self@, entry),
    {
        match entry {
            SystemApiCostingEntry::InvokeFunction { input, .. } => {
                let units = 5 * input.raw.len() + 10 * input.value_count();
                self.fixed_low + units as u32
            },
            SystemApiCostingEntry::Globalize { size } => self.fixed_high + 200 * size,
            SystemApiCostingEntry::BorrowGlobal { loaded, size } => {
                if loaded {
                    self.fixed_high
                } else {
                    self.fixed_low + 100 * size
                }
            },
            SystemApiCostingEntry::BorrowLocal => self.fixed_medium,
            SystemApiCostingEntry::ReturnGlobal { size } => self.fixed_low + 100 * size,
            SystemApiCostingEntry::ReturnLocal => self.fixed_medium,
            SystemApiCostingEntry::Create { .. } => self.fixed_high,
            SystemApiCostingEntry::Read { .. } => self.fixed_medium,
            SystemApiCostingEntry::Write { .. } => self.fixed_medium,
            SystemApiCostingEntry::ReadEpoch => self.fixed_low,
            SystemApiCostingEntry::ReadTransactionHash => self.fixed_low,
            SystemApiCostingEntry::ReadTransactionNetwork => self.fixed_low,
            SystemApiCostingEntry::GenerateUuid => self.fixed_low,
            SystemApiCostingEntry::EmitLog { size } => self.fixed_low + 10 * size,
            SystemApiCostingEntry::CheckAccessRule => self.fixed_medium,
        }
    }
}

fn system_tier_of(f: &str) -> (t: Tier)
    ensures
        t == system_tier(f@),
{
    if str_equal(f, "current_epoch") || str_equal(f, "transaction_hash") {
        Tier::Low
    } else {
        Tier::High
    }
}

fn auth_zone_tier_of(f: &str) -> (t: Tier)
    ensures
        t == auth_zone_tier(f@),
{
    if str_equal(f, "pop") || str_equal(f, "push") {
        Tier::Low
    } else {
        Tier::High
    }
}

fn resource_tier_of(f: &str) -> (t: Tier)
    ensures
        t == resource_tier(f@),
{
    if str_equal(f, "update_auth") || str_equal(f, "lock_auth") || str_equal(f, "create_vault")
        || str_equal(f, "create_bucket") || str_equal(f, "update_metadata") || str_equal(
        f,
        "update_non_fungible_data",
    ) || str_equal(f, "non_fungible_data") {
        Tier::Medium
    } else if str_equal(f, "get_behavior") || str_equal(f, "metadata") || str_equal(
        f,
        "resource_type",
    ) || str_equal(f, "total_supply") || str_equal(f, "non_fungible_exists") {
        Tier::Low
    } else {
        Tier::High
    }
}

fn consumed_tier_of(value_id: &ValueId) -> (t: Tier)
    ensures
        t == consumed_tier(*value_id),
{
    match value_id {
        ValueId::Package(_) | ValueId::System | ValueId::NonFungibles(_) => Tier::High,
        _ => Tier::Medium,
    }
}

fn bucket_tier_of(f: &str) -> (t: Tier)
    ensures
        t == bucket_tier(f@),
{
    if str_equal(f, "take") || str_equal(f, "take_non_fungibles") || str_equal(
        f,
        "non_fungible_ids",
    ) || str_equal(f, "put") {
        Tier::Medium
    } else if str_equal(f, "amount") || str_equal(f, "resource_address") || str_equal(
        f,
        "create_proof",
    ) {
        Tier::Low
    } else {
        Tier::High
    }
}

fn proof_tier_of(f: &str) -> (t: Tier)
    ensures
        t == proof_tier(f@),
{
    if str_equal(f, "amount") || str_equal(f, "non_fungible_ids") || str_equal(
        f,
        "resource_address",
    ) {
        Tier::Low
    } else {
        Tier::High
    }
}

fn vault_tier_of(f: &str) -> (t: Tier)
    ensures
        t == vault_tier(f@),
{
    if str_equal(f, "put") || str_equal(f, "take") || str_equal(f, "take_non_fungibles")
        || str_equal(f, "non_fungible_ids") || str_equal(f, "pay_fee") {
        Tier::Medium
    } else if str_equal(f, "amount") || str_equal(f, "resource_address") {
        Tier::Low
    } else {
        Tier::High
    }
}

fn worktop_tier_of(f: &str) -> (t: Tier)
    ensures
        t == worktop_tier(f@),
{
    if str_equal(f, "put") || str_equal(f, "take_amount") || str_equal(f, "take_all")
        || str_equal(f, "take_non_fungibles") || str_equal(f, "drain") {
        Tier::Medium
    } else if str_equal(f, "assert_contains") || str_equal(f, "assert_contains_amount")
        || str_equal(f, "assert_contains_non_fungibles") {
        Tier::Low
    } else {
        Tier::High
    }
}

/// Whether the three price tiers of a fee table are ordered from cheapest to dearest.
pub open spec fn tiers_ordered(fees: FeeTableView) -> bool {
    fees.fixed_low <= fees.fixed_medium <= fees.fixed_high
}

/// Invoking a blueprint or a component costs nothing as a native call,
/// whatever the function and its call data: that code is charged through
/// instrumentation.
pub proof fn law_instrumented_calls_are_free(
    fees: FeeTableView,
    receiver: SNodeRef,
    fn_ident: Seq<char>,
    input_len: nat,
)
    requires
        receiver is Scrypto || receiver is Component,
    ensures
        spec_function_cost(fees, receiver, fn_ident, input_len) == 0,
{
}

/// Every native call other than publishing a package costs exactly one of
/// the three fixed tiers, so no more than the high tier where the tiers are
/// ordered.
pub proof fn law_native_calls_cost_a_tier(
    fees: FeeTableView,
    receiver: SNodeRef,
    fn_ident: Seq<char>,
    input_len: nat,
)
    requires
        !(receiver is Scrypto),
        !(receiver is Component),
        !(receiver is PackageStatic && fn_ident == "publish"@),
    ensures
        ({
            let c = spec_function_cost(fees, receiver, fn_ident, input_len);
            c == fees.fixed_low || c == fees.fixed_medium || c == fees.fixed_high
        }),
        tiers_ordered(fees) ==> spec_function_cost(fees, receiver, fn_ident, input_len)
            <= fees.fixed_high,
{
}

/// Publishing a larger package never costs less, as long as the lengths fit in a `u32`.
pub proof fn law_publish_cost_grows_with_size(fees: FeeTableView, len1: nat, len2: nat)
    requires
        len1 <= len2 <= u32::MAX,
    ensures
        spec_function_cost(fees, SNodeRef::PackageStatic, "publish"@, len1) <= spec_function_cost(
            fees,
            SNodeRef::PackageStatic,
            "publish"@,
            len2,
        ),
{
}

/// The system calls that carry a size never cost less for a larger size;
/// borrowing a loaded global value, creating, reading and writing cost the
/// same whatever the size.
pub proof fn law_system_api_cost_monotone_in_size(fees: FeeTableView, size1: u32, size2: u32)
    requires
        size1 <= size2,
    ensures
        spec_system_api_cost(fees, SystemApiCostingEntry::Globalize { size: size1 })
            <= spec_system_api_cost(fees, SystemApiCostingEntry::Globalize { size: size2 }),
        spec_system_api_cost(fees, SystemApiCostingEntry::BorrowGlobal { loaded: false, size: size1 })
            <= spec_system_api_cost(
            fees,
            SystemApiCostingEntry::BorrowGlobal { loaded: false, size: size2 },
        ),
        spec_system_api_cost(fees, SystemApiCostingEntry::ReturnGlobal { size: size1 })
            <= spec_system_api_cost(fees, SystemApiCostingEntry::ReturnGlobal { size: size2 }),
        spec_system_api_cost(fees, SystemApiCostingEntry::EmitLog { size: size1 })
            <= spec_system_api_cost(fees, SystemApiCostingEntry::EmitLog { size: size2 }),
        spec_system_api_cost(fees, SystemApiCostingEntry::BorrowGlobal { loaded: true, size: size1 })
            == spec_system_api_cost(
            fees,
            SystemApiCostingEntry::BorrowGlobal { loaded: true, size: size2 },
        ),
        spec_system_api_cost(fees, SystemApiCostingEntry::Create { size: size1 })
            == spec_system_api_cost(fees, SystemApiCostingEntry::Create { size: size2 }),
        spec_system_api_cost(fees, SystemApiCostingEntry::Read { size: size1 })
            == spec_system_api_cost(fees, SystemApiCostingEntry::Read { size: size2 }),
        spec_system_api_cost(fees, SystemApiCostingEntry::Write { size: size1 })
            == spec_system_api_cost(fees, SystemApiCostingEntry::Write { size: size2 }),
{
}

/// Invoking a function with more call data, or with call data that carries
/// more values, never costs less, as long as the invocation's units fit in a `u32`.
pub proof fn law_invoke_cost_grows_with_input(
    fees: FeeTableView,
    receiver1: &SNodeRef,
    input1: &ScryptoValue,
    receiver2: &SNodeRef,
    input2: &ScryptoValue,
)
    requires
        input1.raw@.len() <= input2.raw@.len(),
        input1.spec_value_count() <= input2.spec_value_count(),
        5 * input2.raw@.len() + 10 * input2.spec_value_count() <= u32::MAX,
    ensures
        spec_system_api_cost(
            fees,
            SystemApiCostingEntry::InvokeFunction { receiver: receiver1, input: input1 },
        ) <= spec_system_api_cost(
            fees,
            SystemApiCostingEntry::InvokeFunction { receiver: receiver2, input: input2 },
        ),
{
}

} // verus!
