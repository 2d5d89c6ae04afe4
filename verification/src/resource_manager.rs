//! Resource managers: the requests by which a blueprint manages a resource,
//! and the behaviour of a resource as the engine reports it.
use vstd::prelude::*;
use vstd::hash_map::StringHashMap;

use vstd::std_specs::convert::IntoSpec;

use crate::errors::DecodeError;
use crate::types::{BucketId, ResourceAddress, SNodeRef, ValueId};

verus! {

/// The methods of a resource that an access rule can guard.
#[derive(Clone, Copy, Debug, PartialEq, Eq, Structural, Hash, PartialOrd, Ord)]
pub enum ResourceMethodAuthKey {
    Mint,
    Burn,
    Withdraw,
    Deposit,
    UpdateMetadata,
    UpdateNonFungibleData,
}

/// A fixed-point decimal with 18 decimal places, held as its scaled integer.
#[derive(Clone, Copy, Debug)]
pub struct Decimal(pub i128);

impl From<i64> for Decimal {
    /// The decimal of an integer.
    fn from(v: i64) -> (r: Decimal) {
        assert(-0x8000_0000_0000_0000 * 1_000_000_000_000_000_000 <= v * 1_000_000_000_000_000_000
            <= 0x7fff_ffff_ffff_ffff * 1_000_000_000_000_000_000) by (nonlinear_arith)
            requires
                -0x8000_0000_0000_0000 <= v <= 0x7fff_ffff_ffff_ffff,
        ;
        Decimal(v as i128 * 1_000_000_000_000_000_000)
    }
}

impl vstd::std_specs::convert::FromSpecImpl<i64> for Decimal {
    open spec fn obeys_from_spec() -> bool {
        true
    }

    open spec fn from_spec(v: i64) -> Decimal {
        Decimal((v * 1_000_000_000_000_000_000) as i128)
    }
}

/// What a proof must show for an access rule to be met.
#[derive(Clone, Copy, Debug)]
pub enum ProofRule {
    /// A proof of any amount of the resource.
    Require(ResourceAddress),
    /// A proof of at least the amount of the resource.
    AmountOf(Decimal, ResourceAddress),
}

/// The rule that guards a method.
#[derive(Clone, Copy, Debug)]
pub enum AccessRule {
    AllowAll,
    DenyAll,
    Protected(ProofRule),
}

/// Whether the rule that guards a method may still change, and who may change it.
#[allow(non_camel_case_types)]
#[derive(Clone, Copy, Debug)]
pub enum Mutability {
    LOCKED,
    MUTABLE(AccessRule),
}

/// The kind of a resource.
#[derive(Clone, Copy, Debug)]
pub enum ResourceType {
    Fungible { divisibility: u8 },
    NonFungible,
}

/// The id of a non-fungible unit.
#[derive(Debug)]
pub struct NonFungibleId(pub Vec<u8>);

/// Whether no id occurs twice among entries of (id, immutable data, mutable data).
pub open spec fn ids_distinct(entries: Seq<(Seq<u8>, Seq<u8>, Seq<u8>)>) -> bool {
    forall|i: int, j: int| 0 <= i < j < entries.len() ==> entries[i].0 != entries[j].0
}

/// The non-fungible units to mint, by id: each id at most once, with its
/// immutable and its mutable data.
#[derive(Debug)]
pub struct NonFungibleEntries {
    entries: Vec<(NonFungibleId, Vec<u8>, Vec<u8>)>,
}

impl View for NonFungibleEntries {
    type V = Seq<(Seq<u8>, Seq<u8>, Seq<u8>)>;

    closed spec fn view(&self) -> Seq<(Seq<u8>, Seq<u8>, Seq<u8>)> {
        self.entries@.map_values(|e: (NonFungibleId, Vec<u8>, Vec<u8>)| (e.0.0@, e.1@, e.2@))
    }
}

impl NonFungibleEntries {
    /// Whether no id occurs twice.
    pub open spec fn wf(&self) -> bool {
        ids_distinct(self@)
    }

    /// No entry.
    pub fn new() -> (r: Self)
        ensures
            r@ == Seq::<(Seq<u8>, Seq<u8>, Seq<u8>)>::empty(),
            r.wf(),
    {
        let r = NonFungibleEntries { entries: Vec::new() };
        assert(r@ =~= Seq::<(Seq<u8>, Seq<u8>, Seq<u8>)>::empty());
        r
    }

    /// Sets the data of `id`: in place of its entry where it has one, as a
    /// new last entry otherwise.
    pub fn insert(&mut self, id: NonFungibleId, immutable_data: Vec<u8>, mutable_data: Vec<u8>)
        requires
            old(self).wf(),
        ensures
            final(self).wf(),
            (exists|i: int| 0 <= i < old(self)@.len() && old(self)@[i].0 == id.0@) ==> (exists|i: int|
                0 <= i < old(self)@.len() && old(self)@[i].0 == id.0@
                    && final(self)@ == old(self)@.update(i, (id.0@, immutable_data@, mutable_data@))),
            (forall|i: int| 0 <= i < old(self)@.len() ==> old(self)@[i].0 != id.0@)
                ==> final(self)@ == old(self)@.push((id.0@, immutable_data@, mutable_data@)),
    {
        let ghost before = self@;
        let mut i: usize = 0;
        while i < self.entries.len()
            invariant
                i <= self.entries@.len(),
                self@ == before,
                before == old(self)@,
                ids_distinct(before),
                forall|j: int| 0 <= j < i ==> before[j].0 != id.0@,
            decreases self.entries@.len() - i,
        {
            if bytes_equal(&self.entries[i].0.0, &id.0) {
                let ghost e = (id.0@, immutable_data@, mutable_data@);
                self.entries.set(i, (id, immutable_data, mutable_data));
                assert(self@ =~= before.update(i as int, e));
                assert(before[i as int].0 == e.0);
                assert forall|j: int, k: int| 0 <= j < k < self@.len() implies self@[j].0 != self@[k].0 by {
                    assert(self@[j].0 == before[j].0);
                    assert(self@[k].0 == before[k].0);
                }
                assert(0 <= i < before.len() && before[i as int].0 == id.0@ && self@ == before.update(
                    i as int,
                    e,
                ));
                return;
            }
            i += 1;
        }
        let ghost e = (id.0@, immutable_data@, mutable_data@);
        self.entries.push((id, immutable_data, mutable_data));
        assert(self@ =~= before.push(e));
        assert forall|j: int, k: int| 0 <= j < k < self@.len() implies self@[j].0 != self@[k].0 by {
            if k == before.len() {
                assert(before[j].0 != id.0@);
            }
        }
    }

    /// The entries, in order.
    pub fn entries(&self) -> (r: &Vec<(NonFungibleId, Vec<u8>, Vec<u8>)>)
        ensures
            r@.map_values(|e: (NonFungibleId, Vec<u8>, Vec<u8>)| (e.0.0@, e.1@, e.2@)) == self@,
    {
        &self.entries
    }
}

/// Whether two byte vectors hold the same bytes.
fn bytes_equal(a: &Vec<u8>, b: &Vec<u8>) -> (r: bool)
    ensures
        r == (a@ == b@),
{
    if a.len() != b.len() {
        return false;
    }
    let mut i: usize = 0;
    while i < a.len()
        invariant
            a@.len() == b@.len(),
            i <= a@.len(),
            forall|j: int| 0 <= j < i ==> a@[j] == b@[j],
        decreases a@.len() - i,
    {
        if a[i] != b[i] {
            assert(a@[i as int] != b@[i as int]);
            return false;
        }
        i += 1;
    }
    assert(a@ =~= b@);
    true
}

/// What to mint.
#[derive(Debug)]
pub enum MintParams {
    Fungible { amount: Decimal },
    NonFungible { entries: NonFungibleEntries },
}

/// The access rules of a resource's methods, each method at most once.
#[derive(Clone, Copy, Debug)]
pub struct AccessRules {
    pub mint: Option<(AccessRule, Mutability)>,
    pub burn: Option<(AccessRule, Mutability)>,
    pub withdraw: Option<(AccessRule, Mutability)>,
    pub deposit: Option<(AccessRule, Mutability)>,
    pub update_metadata: Option<(AccessRule, Mutability)>,
    pub update_non_fungible_data: Option<(AccessRule, Mutability)>,
}

impl AccessRules {
    /// The rule of `method`, if one is set.
    pub open spec fn spec_get(&self, method: ResourceMethodAuthKey) -> Option<(AccessRule, Mutability)> {
        match method {
            ResourceMethodAuthKey::Mint => self.mint,
            ResourceMethodAuthKey::Burn => self.burn,
            ResourceMethodAuthKey::Withdraw => self.withdraw,
            ResourceMethodAuthKey::Deposit => self.deposit,
            ResourceMethodAuthKey::UpdateMetadata => self.update_metadata,
            ResourceMethodAuthKey::UpdateNonFungibleData => self.update_non_fungible_data,
        }
    }

    /// No rule set.
    pub fn new() -> (r: Self)
        ensures
            forall|m: ResourceMethodAuthKey| #[trigger] r.spec_get(m) is None,
    {
        AccessRules {
            mint: None,
            burn: None,
            withdraw: None,
            deposit: None,
            update_metadata: None,
            update_non_fungible_data: None,
        }
    }

    /// The rule of `method`, if one is set.
    pub fn get(&self, method: ResourceMethodAuthKey) -> (r: Option<(AccessRule, Mutability)>)
        ensures
            r == self.spec_get(method),
    {
        match method {
            ResourceMethodAuthKey::Mint => self.mint,
            ResourceMethodAuthKey::Burn => self.burn,
            ResourceMethodAuthKey::Withdraw => self.withdraw,
            ResourceMethodAuthKey::Deposit => self.deposit,
            ResourceMethodAuthKey::UpdateMetadata => self.update_metadata,
            ResourceMethodAuthKey::UpdateNonFungibleData => self.update_non_fungible_data,
        }
    }

    /// Sets the rule of `method`, in place of any it had.
    pub fn insert(&mut self, method: ResourceMethodAuthKey, rule: AccessRule, mutability: Mutability)
        ensures
            final(self).spec_get(method) == Some((rule, mutability)),
            forall|m: ResourceMethodAuthKey|
                m != method ==> #[trigger] final(self).spec_get(m) == old(self).spec_get(m),
    {
        let v = Some((rule, mutability));
        match method {
            ResourceMethodAuthKey::Mint => self.mint = v,
            ResourceMethodAuthKey::Burn => self.burn = v,
            ResourceMethodAuthKey::Withdraw => self.withdraw = v,
            ResourceMethodAuthKey::Deposit => self.deposit = v,
            ResourceMethodAuthKey::UpdateMetadata => self.update_metadata = v,
            ResourceMethodAuthKey::UpdateNonFungibleData => self.update_non_fungible_data = v,
        }
    }
}

pub struct ResourceManagerCreateInput {
    pub resource_type: ResourceType,
    pub metadata: StringHashMap<String>,
    pub access_rules: AccessRules,
    pub mint_params: Option<MintParams>,
}

#[derive(Debug)]
pub struct ResourceManagerUpdateAuthInput {
    pub method: ResourceMethodAuthKey,
    pub access_rule: AccessRule,
}

#[derive(Debug)]
pub struct ResourceManagerLockAuthInput {
    pub method: ResourceMethodAuthKey,
}

#[derive(Debug)]
pub struct ResourceManagerCheckBehaviorInput {
    pub method: ResourceMethodAuthKey,
}

#[derive(Debug)]
pub struct ResourceManagerCreateVaultInput {}

#[derive(Debug)]
pub struct ResourceManagerCreateBucketInput {}

#[derive(Debug)]
pub struct ResourceManagerMintInput {
    pub mint_params: MintParams,
}

#[derive(Debug)]
pub struct ResourceManagerGetMetadataInput {}

#[derive(Debug)]
pub struct ResourceManagerGetResourceTypeInput {}

#[derive(Debug)]
pub struct ResourceManagerGetTotalSupplyInput {}

pub struct ResourceManagerUpdateMetadataInput {
    pub metadata: StringHashMap<String>,
}

#[derive(Debug)]
pub struct ResourceManagerUpdateNonFungibleDataInput {
    pub id: NonFungibleId,
    pub data: Vec<u8>,
}

#[derive(Debug)]
pub struct ResourceManagerNonFungibleExistsInput {
    pub id: NonFungibleId,
}

#[derive(Debug)]
pub struct ResourceManagerGetNonFungibleInput {
    pub id: NonFungibleId,
}

/// A bucket of resources, by its id in the current call frame.
#[derive(Clone, Copy, Debug)]
pub struct Bucket(pub BucketId);

/// The call data of burning a bucket.
#[derive(Debug)]
pub struct ConsumingBucketBurnInput {}

/// The call data of a request to a resource manager, or of burning a bucket.
pub enum ResourceManagerCall {
    BurnBucket(ConsumingBucketBurnInput),
    GetMetadata(ResourceManagerGetMetadataInput),
    GetResourceType(ResourceManagerGetResourceTypeInput),
    GetTotalSupply(ResourceManagerGetTotalSupplyInput),
    UpdateMetadata(ResourceManagerUpdateMetadataInput),
    NonFungibleExists(ResourceManagerNonFungibleExistsInput),
    UpdateAuth(ResourceManagerUpdateAuthInput),
    LockAuth(ResourceManagerLockAuthInput),
    CheckBehavior(ResourceManagerCheckBehaviorInput),
    Mint(ResourceManagerMintInput),
    UpdateNonFungibleData(ResourceManagerUpdateNonFungibleDataInput),
    GetNonFungible(ResourceManagerGetNonFungibleInput),
}

/// A request from a blueprint to the engine.
pub enum RadixEngineInput {
    /// Invokes the named method on a node with the given call data.
    InvokeSNode(SNodeRef, String, ResourceManagerCall),
}

/// Data of a non-fungible unit, in an immutable and a mutable part, as a
/// blueprint defines it.
pub trait NonFungibleData: Sized {
    /// The encoding of the immutable part.
    spec fn spec_immutable_data(&self) -> Seq<u8>;

    /// The encoding of the mutable part.
    spec fn spec_mutable_data(&self) -> Seq<u8>;

    /// Whether the two encoded parts decode.
    spec fn decodable(immutable_data: Seq<u8>, mutable_data: Seq<u8>) -> bool;

    /// Whether the two encoded parts decode to `value`.
    spec fn decodes_to(immutable_data: Seq<u8>, mutable_data: Seq<u8>, value: Self) -> bool;

    /// Decodes the data from its immutable and its mutable part.
    fn decode(immutable_data: &[u8], mutable_data: &[u8]) -> (r: Result<Self, DecodeError>)
        ensures
            r is Ok <==> Self::decodable(immutable_data@, mutable_data@),
            r matches Ok(v) ==> Self::decodes_to(immutable_data@, mutable_data@, v),
    ;

    /// Encodes the immutable part.
    fn immutable_data(&self) -> (r: Vec<u8>)
        ensures
            r@ == self.spec_immutable_data(),
    ;

    /// Encodes the mutable part.
    fn mutable_data(&self) -> (r: Vec<u8>)
        ensures
            r@ == self.spec_mutable_data(),
    ;
}

/// Non-fungible data kept as its two encoded parts.
#[derive(Debug)]
pub struct NonFungibleBytes {
    pub immutable: Vec<u8>,
    pub mutable: Vec<u8>,
}

impl NonFungibleData for NonFungibleBytes {
    open spec fn spec_immutable_data(&self) -> Seq<u8> {
        self.immutable@
    }

    open spec fn spec_mutable_data(&self) -> Seq<u8> {
        self.mutable@
    }

    open spec fn decodable(immutable_data: Seq<u8>, mutable_data: Seq<u8>) -> bool {
        true
    }

    open spec fn decodes_to(immutable_data: Seq<u8>, mutable_data: Seq<u8>, value: Self) -> bool {
        value.immutable@ == immutable_data && value.mutable@ == mutable_data
    }

    fn decode(immutable_data: &[u8], mutable_data: &[u8]) -> (r: Result<Self, DecodeError>) {
        Ok(
            NonFungibleBytes {
                immutable: vstd::slice::slice_to_vec(immutable_data),
                mutable: vstd::slice::slice_to_vec(mutable_data),
            },
        )
    }

    fn immutable_data(&self) -> (r: Vec<u8>) {
        copy_bytes(&self.immutable)
    }

    fn mutable_data(&self) -> (r: Vec<u8>) {
        copy_bytes(&self.mutable)
    }
}

/// Whether `r` invokes `method` on the resource manager of `address` with call data `call`.
pub open spec fn invokes(
    r: RadixEngineInput,
    address: ResourceAddress,
    method: Seq<char>,
    call: ResourceManagerCall,
) -> bool {
    match r {
        RadixEngineInput::InvokeSNode(receiver, m, c) => receiver == SNodeRef::ResourceRef(address)
            && m@ == method && c == call,
    }
}

/// Represents a resource manager.
#[derive(Debug)]
pub struct ResourceManager(pub ResourceAddress);

impl ResourceManager {
    fn invoke(&self, method: &str, call: ResourceManagerCall) -> (r: RadixEngineInput)
        ensures
            invokes(r, self.0, method@, call),
    {
        RadixEngineInput::InvokeSNode(SNodeRef::ResourceRef(self.0), method.to_owned(), call)
    }

    fn update_auth(&self, method: ResourceMethodAuthKey, access_rule: AccessRule) -> (r:
        RadixEngineInput)
        ensures
            invokes(
                r,
                self.0,
                "update_auth"@,
                ResourceManagerCall::UpdateAuth(
                    ResourceManagerUpdateAuthInput { method, access_rule },
                ),
            ),
    {
        self.invoke(
            "update_auth",
            ResourceManagerCall::UpdateAuth(ResourceManagerUpdateAuthInput { method, access_rule }),
        )
    }

    fn lock_auth(&self, method: ResourceMethodAuthKey) -> (r: RadixEngineInput)
        ensures
            invokes(
                r,
                self.0,
                "lock_auth"@,
                ResourceManagerCall::LockAuth(ResourceManagerLockAuthInput { method }),
            ),
    {
        self.invoke("lock_auth", ResourceManagerCall::LockAuth(ResourceManagerLockAuthInput { method }))
    }

    fn internal_get_behavior(&self, method: ResourceMethodAuthKey) -> (r: RadixEngineInput)
        ensures
            invokes(
                r,
                self.0,
                "get_behavior"@,
                ResourceManagerCall::CheckBehavior(ResourceManagerCheckBehaviorInput { method }),
            ),
    {
        self.invoke(
            "get_behavior",
            ResourceManagerCall::CheckBehavior(ResourceManagerCheckBehaviorInput { method }),
        )
    }

    /// The request that sets the rule for minting.
    pub fn set_mintable(&mut self, access_rule: AccessRule) -> (r: RadixEngineInput)
        ensures
            *final(self) == *old(self),
            invokes(
                r,
                old(self).0,
                "update_auth"@,
                ResourceManagerCall::UpdateAuth(
                    ResourceManagerUpdateAuthInput { method: ResourceMethodAuthKey::Mint, access_rule },
                ),
            ),
    {
        self.update_auth(ResourceMethodAuthKey::Mint, access_rule)
    }

    /// The request that sets the rule for burning.
    pub fn set_burnable(&mut self, access_rule: AccessRule) -> (r: RadixEngineInput)
        ensures
            *final(self) == *old(self),
            invokes(
                r,
                old(self).0,
                "update_auth"@,
                ResourceManagerCall::UpdateAuth(
                    ResourceManagerUpdateAuthInput { method: ResourceMethodAuthKey::Burn, access_rule },
                ),
            ),
    {
        self.update_auth(ResourceMethodAuthKey::Burn, access_rule)
    }

    /// The request that sets the rule for withdrawing.
    pub fn set_withdrawable(&mut self, access_rule: AccessRule) -> (r: RadixEngineInput)
        ensures
            *final(self) == *old(self),
            invokes(
                r,
                old(self).0,
                "update_auth"@,
                ResourceManagerCall::UpdateAuth(
                    ResourceManagerUpdateAuthInput {
                        method: ResourceMethodAuthKey::Withdraw,
                        access_rule,
                    },
                ),
            ),
    {
        self.update_auth(ResourceMethodAuthKey::Withdraw, access_rule)
    }

    /// The request that sets the rule for depositing.
    pub fn set_depositable(&mut self, access_rule: AccessRule) -> (r: RadixEngineInput)
        ensures
            *final(self) == *old(self),
            invokes(
                r,
                old(self).0,
                "update_auth"@,
                ResourceManagerCall::UpdateAuth(
                    ResourceManagerUpdateAuthInput {
                        method: ResourceMethodAuthKey::Deposit,
                        access_rule,
                    },
                ),
            ),
    {
        self.update_auth(ResourceMethodAuthKey::Deposit, access_rule)
    }

    /// The request that sets the rule for updating metadata.
    pub fn set_updateable_metadata(&self, access_rule: AccessRule) -> (r: RadixEngineInput)
        ensures
            invokes(
                r,
                self.0,
                "update_auth"@,
                ResourceManagerCall::UpdateAuth(
                    ResourceManagerUpdateAuthInput {
                        method: ResourceMethodAuthKey::UpdateMetadata,
                        access_rule,
                    },
                ),
            ),
    {
        self.update_auth(ResourceMethodAuthKey::UpdateMetadata, access_rule)
    }

    /// The request that sets the rule for updating non-fungible data.
    pub fn set_updateable_non_fungible_data(&self, access_rule: AccessRule) -> (r:
        RadixEngineInput)
        ensures
            invokes(
                r,
                self.0,
                "update_auth"@,
                ResourceManagerCall::UpdateAuth(
                    ResourceManagerUpdateAuthInput {
                        method: ResourceMethodAuthKey::UpdateNonFungibleData,
                        access_rule,
                    },
                ),
            ),
    {
        self.update_auth(ResourceMethodAuthKey::UpdateNonFungibleData, access_rule)
    }

    /// The request that locks the rule for minting.
    pub fn lock_mintable(&mut self) -> (r: RadixEngineInput)
        ensures
            *final(self) == *old(self),
            invokes(
                r,
                old(self).0,
                "lock_auth"@,
                ResourceManagerCall::LockAuth(
                    ResourceManagerLockAuthInput { method: ResourceMethodAuthKey::Mint },
                ),
            ),
    {
        self.lock_auth(ResourceMethodAuthKey::Mint)
    }

    /// The request that locks the rule for burning.
    pub fn lock_burnable(&mut self) -> (r: RadixEngineInput)
        ensures
            *final(self) == *old(self),
            invokes(
                r,
                old(self).0,
                "lock_auth"@,
                ResourceManagerCall::LockAuth(
                    ResourceManagerLockAuthInput { method: ResourceMethodAuthKey::Burn },
                ),
            ),
    {
        self.lock_auth(ResourceMethodAuthKey::Burn)
    }

    /// The request that locks the rule for withdrawing.
    pub fn lock_withdrawable(&mut self) -> (r: RadixEngineInput)
        ensures
            *final(self) == *old(self),
            invokes(
                r,
                old(self).0,
                "lock_auth"@,
                ResourceManagerCall::LockAuth(
                    ResourceManagerLockAuthInput { method: ResourceMethodAuthKey::Withdraw },
                ),
            ),
    {
        self.lock_auth(ResourceMethodAuthKey::Withdraw)
    }

    /// The request that locks the rule for depositing.
    pub fn lock_depositable(&mut self) -> (r: RadixEngineInput)
        ensures
            *final(self) == *old(self),
            invokes(
                r,
                old(self).0,
                "lock_auth"@,
                ResourceManagerCall::LockAuth(
                    ResourceManagerLockAuthInput { method: ResourceMethodAuthKey::Deposit },
                ),
            ),
    {
        self.lock_auth(ResourceMethodAuthKey::Deposit)
    }

    /// The request that locks the rule for updating metadata.
    pub fn lock_updateable_metadata(&mut self) -> (r: RadixEngineInput)
        ensures
            *final(self) == *old(self),
            invokes(
                r,
                old(self).0,
                "lock_auth"@,
                ResourceManagerCall::LockAuth(
                    ResourceManagerLockAuthInput { method: ResourceMethodAuthKey::UpdateMetadata },
                ),
            ),
    {
        self.lock_auth(ResourceMethodAuthKey::UpdateMetadata)
    }

    /// The request that locks the rule for updating non-fungible data.
    pub fn lock_updateable_non_fungible_data(&mut self) -> (r: RadixEngineInput)
        ensures
            *final(self) == *old(self),
            invokes(
                r,
                old(self).0,
                "lock_auth"@,
                ResourceManagerCall::LockAuth(
                    ResourceManagerLockAuthInput {
                        method: ResourceMethodAuthKey::UpdateNonFungibleData,
                    },
                ),
            ),
    {
        self.lock_auth(ResourceMethodAuthKey::UpdateNonFungibleData)
    }

    /// The request that asks for the behaviour of minting; the engine's
    /// reply becomes a `ResourceBehavior` through `ResourceBehavior::from_reply`.
    pub fn mint_behavior(&self) -> (r: RadixEngineInput)
        ensures
            invokes(
                r,
                self.0,
                "get_behavior"@,
                ResourceManagerCall::CheckBehavior(
                    ResourceManagerCheckBehaviorInput { method: ResourceMethodAuthKey::Mint },
                ),
            ),
    {
        self.internal_get_behavior(ResourceMethodAuthKey::Mint)
    }

    /// The request that asks for the behaviour of burning.
    pub fn burn_behavior(&self) -> (r: RadixEngineInput)
        ensures
            invokes(
                r,
                self.0,
                "get_behavior"@,
                ResourceManagerCall::CheckBehavior(
                    ResourceManagerCheckBehaviorInput { method: ResourceMethodAuthKey::Burn },
                ),
            ),
    {
        self.internal_get_behavior(ResourceMethodAuthKey::Burn)
    }

    /// The request that asks for the behaviour of withdrawing.
    pub fn withdraw_behavior(&self) -> (r: RadixEngineInput)
        ensures
            invokes(
                r,
                self.0,
                "get_behavior"@,
                ResourceManagerCall::CheckBehavior(
                    ResourceManagerCheckBehaviorInput { method: ResourceMethodAuthKey::Withdraw },
                ),
            ),
    {
        self.internal_get_behavior(ResourceMethodAuthKey::Withdraw)
    }

    /// The request that asks for the behaviour of depositing.
    pub fn deposit_behavior(&self) -> (r: RadixEngineInput)
        ensures
            invokes(
                r,
                self.0,
                "get_behavior"@,
                ResourceManagerCall::CheckBehavior(
                    ResourceManagerCheckBehaviorInput { method: ResourceMethodAuthKey::Deposit },
                ),
            ),
    {
        self.internal_get_behavior(ResourceMethodAuthKey::Deposit)
    }

    /// The request that asks for the behaviour of updating metadata.
    pub fn updatable_metadata_behavior(&self) -> (r: RadixEngineInput)
        ensures
            invokes(
                r,
                self.0,
                "get_behavior"@,
                ResourceManagerCall::CheckBehavior(
                    ResourceManagerCheckBehaviorInput {
                        method: ResourceMethodAuthKey::UpdateMetadata,
                    },
                ),
            ),
    {
        self.internal_get_behavior(ResourceMethodAuthKey::UpdateMetadata)
    }

    /// The request that asks for the behaviour of updating non-fungible data.
    pub fn updatable_non_fungible_data_behavior(&self) -> (r: RadixEngineInput)
        ensures
            invokes(
                r,
                self.0,
                "get_behavior"@,
                ResourceManagerCall::CheckBehavior(
                    ResourceManagerCheckBehaviorInput {
                        method: ResourceMethodAuthKey::UpdateNonFungibleData,
                    },
                ),
            ),
    {
        self.internal_get_behavior(ResourceMethodAuthKey::UpdateNonFungibleData)
    }

    /// The request that mints fungible resources.
    pub fn mint<T: Into<Decimal>>(&mut self, amount: T) -> (r: RadixEngineInput)
        ensures
            *final(self) == *old(self),
            match r {
                RadixEngineInput::InvokeSNode(receiver, m, call) => {
                    &&& receiver == SNodeRef::ResourceRef(old(self).0)
                    &&& m@ == "mint"@
                    &&& call matches ResourceManagerCall::Mint(input)
                    &&& input.mint_params matches MintParams::Fungible { amount: a }
                    &&& (<T as IntoSpec<Decimal>>::obeys_into_spec() ==> a == amount.into_spec())
                },
            },
    {
        let amount: Decimal = amount.into();
        self.invoke(
            "mint",
            ResourceManagerCall::Mint(
                ResourceManagerMintInput { mint_params: MintParams::Fungible { amount } },
            ),
        )
    }

    /// The request that mints one non-fungible unit with the given id and data.
    pub fn mint_non_fungible<T: NonFungibleData>(&mut self, id: &NonFungibleId, data: T) -> (r:
        RadixEngineInput)
        ensures
            *final(self) == *old(self),
            match r {
                RadixEngineInput::InvokeSNode(receiver, m, call) => {
                    &&& receiver == SNodeRef::ResourceRef(old(self).0)
                    &&& m@ == "mint"@
                    &&& call matches ResourceManagerCall::Mint(input)
                    &&& input.mint_params matches MintParams::NonFungible { entries }
                    &&& entries.wf()
                    &&& entries@ == seq![
                        (id.0@, data.spec_immutable_data(), data.spec_mutable_data()),
                    ]
                },
            },
    {
        let immutable = data.immutable_data();
        let mutable = data.mutable_data();
        self.mint_non_fungible_encoded(id, immutable, mutable)
    }

    /// The request that mints one non-fungible unit with the given id and
    /// encoded immutable and mutable data.
    pub fn mint_non_fungible_encoded(
        &mut self,
        id: &NonFungibleId,
        immutable_data: Vec<u8>,
        mutable_data: Vec<u8>,
    ) -> (r: RadixEngineInput)
        ensures
            *final(self) == *old(self),
            match r {
                RadixEngineInput::InvokeSNode(receiver, m, call) => {
                    &&& receiver == SNodeRef::ResourceRef(old(self).0)
                    &&& m@ == "mint"@
                    &&& call matches ResourceManagerCall::Mint(input)
                    &&& input.mint_params matches MintParams::NonFungible { entries }
                    &&& entries.wf()
                    &&& entries@ == seq![(id.0@, immutable_data@, mutable_data@)]
                },
            },
    {
        let mut entries = NonFungibleEntries::new();
        let ghost e = (id.0@, immutable_data@, mutable_data@);
        entries.insert(copy_id(id), immutable_data, mutable_data);
        assert(entries@ =~= seq![e]);
        self.invoke(
            "mint",
            ResourceManagerCall::Mint(
                ResourceManagerMintInput { mint_params: MintParams::NonFungible { entries } },
            ),
        )
    }

    /// The request that burns a bucket of resources: the bucket is consumed
    /// by the invocation.
    pub fn burn(&self, bucket: Bucket) -> (r: RadixEngineInput)
        ensures
            match r {
                RadixEngineInput::InvokeSNode(receiver, m, call) => {
                    &&& receiver == SNodeRef::Consumed(ValueId::Bucket(bucket.0))
                    &&& m@ == "burn"@
                    &&& call == ResourceManagerCall::BurnBucket(ConsumingBucketBurnInput {})
                },
            },
    {
        RadixEngineInput::InvokeSNode(
            SNodeRef::Consumed(ValueId::Bucket(bucket.0)),
            "burn".to_owned(),
            ResourceManagerCall::BurnBucket(ConsumingBucketBurnInput {}),
        )
    }

    /// The request that reads the data of a non-fungible unit, both its
    /// immutable and mutable parts; the engine's reply becomes the data
    /// through `non_fungible_data_from_reply`.
    pub fn get_non_fungible_data(&self, id: &NonFungibleId) -> (r: RadixEngineInput)
        ensures
            match r {
                RadixEngineInput::InvokeSNode(receiver, m, call) => {
                    &&& receiver == SNodeRef::ResourceRef(self.0)
                    &&& m@ == "non_fungible_data"@
                    &&& call matches ResourceManagerCall::GetNonFungible(input)
                    &&& input.id.0@ == id.0@
                },
            },
    {
        self.invoke(
            "non_fungible_data",
            ResourceManagerCall::GetNonFungible(ResourceManagerGetNonFungibleInput { id: copy_id(id) }),
        )
    }

    /// The data of a non-fungible unit from the engine's reply, which holds
    /// its immutable part, then its mutable part. A reply that does not
    /// decode is a caller's error.
    pub fn non_fungible_data_from_reply<T: NonFungibleData>(reply: [Vec<u8>; 2]) -> (r: T)
        requires
            T::decodable(reply[0]@, reply[1]@),
        ensures
            T::decodes_to(reply[0]@, reply[1]@, r),
    {
        match T::decode(reply[0].as_slice(), reply[1].as_slice()) {
            Ok(v) => v,
            Err(_) => vstd::pervasive::unreached(),
        }
    }

    /// The request that replaces the mutable part of a non-fungible unit.
    pub fn update_non_fungible_data<T: NonFungibleData>(
        &mut self,
        id: &NonFungibleId,
        new_data: T,
    ) -> (r: RadixEngineInput)
        ensures
            *final(self) == *old(self),
            match r {
                RadixEngineInput::InvokeSNode(receiver, m, call) => {
                    &&& receiver == SNodeRef::ResourceRef(old(self).0)
                    &&& m@ == "update_non_fungible_data"@
                    &&& call matches ResourceManagerCall::UpdateNonFungibleData(input)
                    &&& input.id.0@ == id.0@
                    &&& input.data@ == new_data.spec_mutable_data()
                },
            },
    {
        let data = new_data.mutable_data();
        self.update_non_fungible_encoded(id, data)
    }

    /// The request that replaces the mutable part of a non-fungible unit by
    /// the given encoded data.
    pub fn update_non_fungible_encoded(&mut self, id: &NonFungibleId, data: Vec<u8>) -> (r:
        RadixEngineInput)
        ensures
            *final(self) == *old(self),
            match r {
                RadixEngineInput::InvokeSNode(receiver, m, call) => {
                    &&& receiver == SNodeRef::ResourceRef(old(self).0)
                    &&& m@ == "update_non_fungible_data"@
                    &&& call matches ResourceManagerCall::UpdateNonFungibleData(input)
                    &&& input.id.0@ == id.0@
                    &&& input.data@ == data@
                },
            },
    {
        self.invoke(
            "update_non_fungible_data",
            ResourceManagerCall::UpdateNonFungibleData(
                ResourceManagerUpdateNonFungibleDataInput { id: copy_id(id), data },
            ),
        )
    }

    /// The request that reads the resource's metadata.
    pub fn metadata(&self) -> (r: RadixEngineInput)
        ensures
            invokes(
                r,
                self.0,
                "metadata"@,
                ResourceManagerCall::GetMetadata(ResourceManagerGetMetadataInput {}),
            ),
    {
        self.invoke("metadata", ResourceManagerCall::GetMetadata(ResourceManagerGetMetadataInput {}))
    }

    /// The request that reads the resource's type.
    pub fn resource_type(&self) -> (r: RadixEngineInput)
        ensures
            invokes(
                r,
                self.0,
                "resource_type"@,
                ResourceManagerCall::GetResourceType(ResourceManagerGetResourceTypeInput {}),
            ),
    {
        self.invoke(
            "resource_type",
            ResourceManagerCall::GetResourceType(ResourceManagerGetResourceTypeInput {}),
        )
    }

    /// The request that reads the resource's total supply.
    pub fn total_supply(&self) -> (r: RadixEngineInput)
        ensures
            invokes(
                r,
                self.0,
                "total_supply"@,
                ResourceManagerCall::GetTotalSupply(ResourceManagerGetTotalSupplyInput {}),
            ),
    {
        self.invoke(
            "total_supply",
            ResourceManagerCall::GetTotalSupply(ResourceManagerGetTotalSupplyInput {}),
        )
    }

    /// The request that replaces the resource's metadata.
    pub fn update_metadata(&mut self, metadata: StringHashMap<String>) -> (r: RadixEngineInput)
        ensures
            *final(self) == *old(self),
            invokes(
                r,
                old(self).0,
                "update_metadata"@,
                ResourceManagerCall::UpdateMetadata(ResourceManagerUpdateMetadataInput { metadata }),
            ),
    {
        self.invoke(
            "update_metadata",
            ResourceManagerCall::UpdateMetadata(ResourceManagerUpdateMetadataInput { metadata }),
        )
    }

    /// The request that asks whether a non-fungible unit exists.
    pub fn non_fungible_exists(&self, id: &NonFungibleId) -> (r: RadixEngineInput)
        ensures
            match r {
                RadixEngineInput::InvokeSNode(receiver, m, call) => {
                    &&& receiver == SNodeRef::ResourceRef(self.0)
                    &&& m@ == "non_fungible_exists"@
                    &&& call matches ResourceManagerCall::NonFungibleExists(input)
                    &&& input.id.0@ == id.0@
                },
            },
    {
        self.invoke(
            "non_fungible_exists",
            ResourceManagerCall::NonFungibleExists(
                ResourceManagerNonFungibleExistsInput { id: copy_id(id) },
            ),
        )
    }
}

/// A copy of a non-fungible id.
fn copy_id(id: &NonFungibleId) -> (r: NonFungibleId)
    ensures
        r.0@ == id.0@,
{
    NonFungibleId(copy_bytes(&id.0))
}

/// A copy of a byte vector.
fn copy_bytes(v: &Vec<u8>) -> (r: Vec<u8>)
    ensures
        r@ == v@,
{
    let mut r: Vec<u8> = Vec::new();
    for i in 0..v.len()
        invariant
            r@ =~= v@.subrange(0, i as int),
    {
        r.push(v[i]);
    }
    assert(r@ =~= v@);
    r
}

/// Represents the behavior of a resource.
pub struct ResourceBehavior {
    is_enabled: bool,
    is_locked: bool,
}

impl ResourceBehavior {
    /// Whether the behaviour is currently enabled.
    pub closed spec fn enabled(&self) -> bool {
        self.is_enabled
    }

    /// Whether the behaviour is permanently locked.
    pub closed spec fn locked(&self) -> bool {
        self.is_locked
    }

    /// The behaviour that the engine replies with: whether it is enabled,
    /// then whether it is locked.
    pub fn from_reply(reply: (bool, bool)) -> (r: Self)
        ensures
            r.enabled() == reply.0,
            r.locked() == reply.1,
    {
        ResourceBehavior { is_enabled: reply.0, is_locked: reply.1 }
    }

    /// Returns a boolean representing whether a specific behavior is currently enabled.
    pub fn is_enabled(&self) -> (r: bool)
        ensures
            r == self.enabled(),
    {
        self.is_enabled
    }

    /// Returns a boolean representing whether a specific behavior is permanently locked.
    pub fn is_locked(&self) -> (r: bool)
        ensures
            r == self.locked(),
    {
        self.is_locked
    }

    /// Returns a boolean representing whether a specific behavior is currently disabled.
    pub fn is_disabled(&self) -> (r: bool)
        ensures
            r == !self.enabled(),
    {
        !self.is_enabled
    }

    /// Returns a boolean representing whether a specific behavior is mutable (can change).
    pub fn is_mutable(&self) -> (r: bool)
        ensures
            r == !self.locked(),
    {
        !self.is_locked
    }

    /// Returns a boolean representing whether a specific behavior is permanently enabled.
    pub fn is_permanently_enabled(&self) -> (r: bool)
        ensures
            r == (self.enabled() && self.locked()),
    {
        self.is_enabled && self.is_locked
    }

    /// Returns a boolean representing whether a specific behavior is permanently disabled.
    pub fn is_permanently_disabled(&self) -> (r: bool)
        ensures
            r == (!self.enabled() && self.locked()),
    {
        self.is_disabled() && self.is_locked
    }
}

/// Every behaviour is exactly one of: permanently enabled, permanently
/// disabled, or mutable.
pub proof fn law_behavior_is_permanent_or_mutable(b: ResourceBehavior)
    ensures
        (b.enabled() && b.locked()) || (!b.enabled() && b.locked()) || !b.locked(),
        !((b.enabled() && b.locked()) && (!b.enabled() && b.locked())),
        !((b.enabled() && b.locked()) && !b.locked()),
        !((!b.enabled() && b.locked()) && !b.locked()),
{
}

/// Why bytes or text do not make an address.
#[derive(Clone, Copy, Debug)]
pub enum AddressError {
    InvalidLength(usize),
}

impl ResourceAddress {
    /// The address whose bytes are `slice`, which must be 27 bytes long.
    pub fn try_from(slice: &[u8]) -> (r: Result<Self, AddressError>)
        ensures
            slice@.len() == 27 ==> (r matches Ok(a) && a.0@ == slice@),
            slice@.len() != 27 ==> (r matches Err(AddressError::InvalidLength(n)) && n
                == slice@.len()),
    {
        if slice.len() == 27 {
            let mut bytes = [0u8; 27];
            let mut i: usize = 0;
            while i < 27
                invariant
                    i <= 27,
                    slice@.len() == 27,
                    forall|j: int| 0 <= j < i ==> bytes@[j] == slice@[j],
                decreases 27 - i,
            {
                bytes[i] = slice[i];
                i += 1;
            }
            assert(bytes@ =~= slice@);
            Ok(ResourceAddress(bytes))
        } else {
            Err(AddressError::InvalidLength(slice.len()))
        }
    }

    /// The address's bytes.
    pub fn to_vec(&self) -> (r: Vec<u8>)
        ensures
            r@ == self.0@,
    {
        let mut r: Vec<u8> = Vec::new();
        let mut i: usize = 0;
        while i < 27
            invariant
                i <= 27,
                r@ =~= self.0@.subrange(0, i as int),
            decreases 27 - i,
        {
            r.push(self.0[i]);
            i += 1;
        }
        assert(r@ =~= self.0@);
        r
    }
}

/// Reading an address back from its bytes gives the same address.
pub proof fn law_address_bytes_round_trip(a: ResourceAddress, bytes: Seq<u8>, b: ResourceAddress)
    requires
        bytes == a.0@,
        b.0@ == bytes,
    ensures
        b == a,
{
    vstd::array::axiom_array_ext_equal(a.0, b.0);
}

} // verus!
