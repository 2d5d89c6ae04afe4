//! The kernel services that native package code calls, and a kernel that
//! keeps its nodes in memory.
use vstd::prelude::*;

use crate::errors::{KernelError, RENodeId, RuntimeError};
use crate::package::ValidatedPackage;
use crate::substate::{same_bytes, InMemorySubstateStore, Substate, SubstateId};
use crate::types::PackageAddress;

verus! {

/// A node held in the current call frame, before it is globalized.
pub enum HeapRENode {
    Package(ValidatedPackage),
}

/// One call to the kernel, with what it returned.
pub enum SystemApiCall {
    NodeCreate(HeapRENode, Result<RENodeId, RuntimeError>),
    NodeGlobalize(RENodeId, Result<(), RuntimeError>),
}

/// The kernel services that native package code calls. The calls made so
/// far, with their results, are kept in a log.
pub trait SystemApi {
    /// The calls made so far, oldest first.
    spec fn calls(&self) -> Seq<SystemApiCall>;

    /// Creates a node in the current call frame. A package node gets a package id.
    fn node_create(&mut self, node: HeapRENode) -> (r: Result<RENodeId, RuntimeError>)
        ensures
            final(self).calls() == old(self).calls().push(SystemApiCall::NodeCreate(node, r)),
            node is Package ==> (r matches Ok(id) ==> id is Package),
    ;

    /// Moves a node of the current call frame to the global state.
    fn node_globalize(&mut self, node_id: RENodeId) -> (r: Result<(), RuntimeError>)
        ensures
            final(self).calls() == old(self).calls().push(SystemApiCall::NodeGlobalize(node_id, r)),
    ;
}

/// A kernel that keeps created nodes in memory and globalizes them into an
/// in-memory substate store. Package addresses are numbered in order of
/// creation.
pub struct InMemoryKernel {
    store: InMemorySubstateStore,
    created: Vec<PackageAddress>,
    pending: Vec<(PackageAddress, ValidatedPackage)>,
    log: Ghost<Seq<SystemApiCall>>,
}

impl InMemoryKernel {
    /// A kernel over the given store, with no call made yet.
    pub fn new(store: InMemorySubstateStore) -> (r: Self)
        ensures
            r.calls() == Seq::<SystemApiCall>::empty(),
    {
        InMemoryKernel { store, created: Vec::new(), pending: Vec::new(), log: Ghost(Seq::empty()) }
    }

    /// The global state.
    pub fn store(&self) -> &InMemorySubstateStore {
        &self.store
    }
}

/// The address of the `n`-th package created: the package entity byte,
/// then `n` in eight little-endian bytes.
fn package_address_at(n: usize) -> PackageAddress {
    let mut bytes = [0u8; 27];
    bytes[0] = 1;
    let mut v: u64 = n as u64;
    let mut k: usize = 1;
    while k < 9
        invariant
            1 <= k <= 9,
        decreases 9 - k,
    {
        bytes[k] = (v % 256) as u8;
        v = v / 256;
        k += 1;
    }
    PackageAddress(bytes)
}

/// The index of the pending package at `address`, if there is one.
fn find_pending(pending: &Vec<(PackageAddress, ValidatedPackage)>, address: &PackageAddress) -> (r:
    Option<usize>)
    ensures
        r matches Some(i) ==> i < pending@.len(),
{
    let mut i: usize = 0;
    while i < pending.len()
        invariant
            i <= pending@.len(),
        decreases pending@.len() - i,
    {
        if same_bytes(&pending[i].0.0, &address.0) {
            return Some(i);
        }
        i += 1;
    }
    None
}

impl SystemApi for InMemoryKernel {
    closed spec fn calls(&self) -> Seq<SystemApiCall> {
        self.log@
    }

    fn node_create(&mut self, node: HeapRENode) -> (r: Result<RENodeId, RuntimeError>) {
        let ghost created_node = node;
        let address = package_address_at(self.created.len());
        let r = match node {
            HeapRENode::Package(p) => {
                self.created.push(address);
                self.pending.push((address, p));
                Ok(RENodeId::Package(address))
            },
        };
        proof {
            self.log@ = self.log@.push(SystemApiCall::NodeCreate(created_node, r));
        }
        r
    }

    fn node_globalize(&mut self, node_id: RENodeId) -> (r: Result<(), RuntimeError>) {
        let r = match node_id {
            RENodeId::Package(a) => {
                match find_pending(&self.pending, &a) {
                    Some(i) => {
                        let (address, p) = self.pending.remove(i);
                        self.store.put_substate(SubstateId::Package(address), Substate::Package(p));
                        Ok(())
                    },
                    None => Err(RuntimeError::KernelError(KernelError::RENodeNotFound(node_id))),
                }
            },
            _ => Err(RuntimeError::KernelError(KernelError::RENodeNotFound(node_id))),
        };
        proof {
            self.log@ = self.log@.push(SystemApiCall::NodeGlobalize(node_id, r));
        }
        r
    }
}

} // verus!
