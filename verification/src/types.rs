//! Identifiers of the engine's nodes and values, and the call data that
//! flows between them.
use vstd::prelude::*;

verus! {

/// The address of a package: an entity byte followed by a hash prefix.
#[derive(Clone, Copy, Debug)]
pub struct PackageAddress(pub [u8; 27]);

/// The address of a component.
#[derive(Clone, Copy, Debug)]
pub struct ComponentAddress(pub [u8; 27]);

/// The address of a resource.
#[derive(Clone, Copy, Debug)]
pub struct ResourceAddress(pub [u8; 27]);

/// A 32-byte hash, as produced for transactions.
#[derive(Clone, Copy, Debug)]
pub struct HashValue(pub [u8; 32]);

/// Identifies a bucket within a call frame.
pub type BucketId = u32;

/// Identifies a proof within a call frame.
pub type ProofId = u32;

/// Identifies a vault: the transaction that created it and a counter.
#[derive(Clone, Copy, Debug)]
pub struct VaultId {
    pub tx_hash: HashValue,
    pub index: u32,
}

/// Identifies a key-value store: the transaction that created it and a counter.
#[derive(Clone, Copy, Debug)]
pub struct KeyValueStoreId {
    pub tx_hash: HashValue,
    pub index: u32,
}

/// A value owned by the engine, as it can be consumed by an invocation.
#[derive(Clone, Copy, Debug)]
pub enum ValueId {
    Bucket(BucketId),
    Proof(ProofId),
    Worktop,
    KeyValueStore(KeyValueStoreId),
    Component(ComponentAddress),
    Vault(VaultId),
    Resource(ResourceAddress),
    Package(PackageAddress),
    System,
    NonFungibles(ResourceAddress),
}

/// The blueprint or component that a Scrypto invocation runs against.
#[derive(Debug)]
pub enum ScryptoActor {
    Blueprint(PackageAddress, String),
    Component(ComponentAddress),
}

/// The receiver of an invocation.
#[derive(Debug)]
pub enum SNodeRef {
    SystemRef,
    PackageStatic,
    AuthZoneRef,
    Scrypto(ScryptoActor),
    Component(ComponentAddress),
    ResourceStatic,
    ResourceRef(ResourceAddress),
    Consumed(ValueId),
    BucketRef(BucketId),
    ProofRef(ProofId),
    VaultRef(VaultId),
    TransactionProcessor,
    WorktopRef,
}

/// Encoded call data or return data, together with the engine-owned values
/// that the encoding refers to.
pub struct ScryptoValue {
    /// The encoded bytes.
    pub raw: Vec<u8>,
    /// The buckets that the value carries.
    pub bucket_ids: Vec<BucketId>,
    /// The proofs that the value carries.
    pub proof_ids: Vec<ProofId>,
    /// The vaults that the value refers to.
    pub vault_ids: Vec<VaultId>,
    /// The key-value stores that the value refers to.
    pub kv_store_ids: Vec<KeyValueStoreId>,
}

impl ScryptoValue {
    /// The number of engine-owned values that the value refers to.
    pub open spec fn spec_value_count(&self) -> nat {
        self.bucket_ids@.len() + self.proof_ids@.len() + self.vault_ids@.len()
            + self.kv_store_ids@.len()
    }

    /// Counts the engine-owned values that the value refers to.
    pub fn value_count(&self) -> (r: usize)
        requires
            self.spec_value_count() <= usize::MAX,
        ensures
            r == self.spec_value_count(),
    {
        self.bucket_ids.len() + self.proof_ids.len() + self.vault_ids.len()
            + self.kv_store_ids.len()
    }
}

} // verus!
