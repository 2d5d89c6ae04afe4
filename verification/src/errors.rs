//! Errors raised by the engine's kernel and by the decoder of call data.
use vstd::prelude::*;

use crate::types::{
    BucketId, ComponentAddress, KeyValueStoreId, PackageAddress, ProofId, ResourceAddress, VaultId,
};

verus! {

/// A node of the engine, whether held in a call frame or globalized.
#[derive(Clone, Copy, Debug)]
pub enum RENodeId {
    Bucket(BucketId),
    Proof(ProofId),
    KeyValueStore(KeyValueStoreId),
    Worktop,
    Component(ComponentAddress),
    Vault(VaultId),
    Resource(ResourceAddress),
    Package(PackageAddress),
    System,
}

/// An error of the engine's kernel.
#[derive(Debug)]
pub enum KernelError {
    PackageNotFound(PackageAddress),
    BlueprintNotFound(PackageAddress, String),
    RENodeNotFound(RENodeId),
    MaxCallDepthLimitReached,
}

/// An error raised while a transaction runs.
#[derive(Debug)]
pub enum RuntimeError {
    KernelError(KernelError),
}

/// An error in decoding call data.
#[derive(Clone, Copy, Debug)]
pub enum DecodeError {
    Underflow { required: usize, remaining: usize },
    InvalidType { expected_type: Option<u8>, actual_type: u8 },
    InvalidSize { expected_size: usize, actual_size: usize },
    InvalidIndex(u8),
    InvalidEnumVariant(u8),
    InvalidUnit(u8),
    InvalidBool(u8),
    InvalidUtf8,
    NotAllBytesUsed(usize),
}

} // verus!
