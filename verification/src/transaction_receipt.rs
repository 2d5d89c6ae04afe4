//! Transaction receipts: how a transaction ended, what it cost and what it created.
use vstd::prelude::*;

use crate::errors::RuntimeError;
use crate::resource_manager::Decimal;
use crate::types::{ComponentAddress, PackageAddress, ResourceAddress};

verus! {

/// What a transaction paid.
#[derive(Debug)]
pub struct TransactionFeeSummary {
    /// The specified max cost units can be consumed.
    pub cost_unit_limit: u32,
    /// The total number of cost units consumed.
    pub cost_unit_consumed: u32,
    /// The cost unit price in XRD.
    pub cost_unit_price: Decimal,
    /// The total amount of XRD burned.
    pub burned: Decimal,
    /// The total amount of XRD tipped to validators.
    pub tipped: Decimal,
}

/// How a transaction ended.
#[derive(Debug)]
pub enum TransactionStatus {
    Rejected,
    /// The encoded outputs of the instructions.
    Succeeded(Vec<Vec<u8>>),
    Failed(RuntimeError),
}

/// The level of an application log.
#[derive(Clone, Copy, Debug)]
pub enum Level {
    Error,
    Warn,
    Info,
    Debug,
    Trace,
}

/// Represents a transaction receipt.
pub struct TransactionReceipt {
    pub status: TransactionStatus,
    pub transaction_fee: TransactionFeeSummary,
    pub execution_time: Option<u128>,
    pub application_logs: Vec<(Level, String)>,
    pub new_package_addresses: Vec<PackageAddress>,
    pub new_component_addresses: Vec<ComponentAddress>,
    pub new_resource_addresses: Vec<ResourceAddress>,
}

impl TransactionReceipt {
    /// The outputs of a transaction that succeeded; any other receipt is a
    /// caller's error.
    pub fn expect_success(&self) -> (r: &Vec<Vec<u8>>)
        requires
            self.status is Succeeded,
        ensures
            self.status == TransactionStatus::Succeeded(*r),
    {
        match &self.status {
            TransactionStatus::Succeeded(output) => output,
            _ => vstd::pervasive::unreached(),
        }
    }

    /// Checks that the transaction failed with an error that `f` accepts;
    /// any other receipt is a caller's error.
    pub fn expect_err<F: FnOnce(&RuntimeError) -> bool>(&self, f: F)
        requires
            self.status matches TransactionStatus::Failed(e) && f.requires((&e,)) && forall|ok: bool|
                f.ensures((&e,), ok) ==> ok,
    {
        if let TransactionStatus::Failed(e) = &self.status {
            let ok = f(e);
            assert(ok);
        }
    }

    /// The number of entities that the transaction created.
    pub fn new_entities_count(&self) -> (r: usize)
        requires
            self.new_package_addresses@.len() + self.new_component_addresses@.len()
                + self.new_resource_addresses@.len() <= usize::MAX,
        ensures
            r == self.new_package_addresses@.len() + self.new_component_addresses@.len()
                + self.new_resource_addresses@.len(),
    {
        self.new_package_addresses.len() + self.new_component_addresses.len()
            + self.new_resource_addresses.len()
    }
}

/// The branch that introduces the `i`-th of `len` items of a listing: the
/// last item closes the branch.
pub fn tree_prefix(i: usize, len: usize) -> (r: &'static str)
    requires
        i < len,
    ensures
        i == len - 1 ==> r@ == "└─"@,
        i != len - 1 ==> r@ == "├─"@,
{
    if i == len - 1 {
        "└─"
    } else {
        "├─"
    }
}

} // verus!
