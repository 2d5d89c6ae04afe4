//! Substates as the ledger stores them, and a store that holds them in memory.
use vstd::prelude::*;

use crate::package::ValidatedPackage;
use crate::types::{ComponentAddress, PackageAddress};

verus! {

/// Identifies a substate in the ledger.
#[derive(Clone, Copy, Debug)]
pub enum SubstateId {
    ComponentInfo(ComponentAddress),
    Package(PackageAddress),
}

/// What a component is an instance of.
pub struct ComponentInfo {
    package_address: PackageAddress,
    blueprint_name: String,
}

impl ComponentInfo {
    /// The info of a component instantiated from `blueprint_name` in `package_address`.
    pub fn new(package_address: PackageAddress, blueprint_name: String) -> (r: Self)
        ensures
            r.spec_package_address() == package_address,
            r.spec_blueprint_name() == blueprint_name@,
    {
        ComponentInfo { package_address, blueprint_name }
    }

    /// The package that holds the component's blueprint.
    pub closed spec fn spec_package_address(&self) -> PackageAddress {
        self.package_address
    }

    /// The name of the component's blueprint.
    pub closed spec fn spec_blueprint_name(&self) -> Seq<char> {
        self.blueprint_name@
    }

    /// The package that holds the component's blueprint.
    pub fn package_address(&self) -> (r: PackageAddress)
        ensures
            r == self.spec_package_address(),
    {
        self.package_address
    }

    /// The name of the component's blueprint.
    pub fn blueprint_name(&self) -> (r: &str)
        ensures
            r@ == self.spec_blueprint_name(),
    {
        self.blueprint_name.as_str()
    }
}

/// The state kept under one substate id.
pub enum Substate {
    Package(ValidatedPackage),
    ComponentInfo(ComponentInfo),
}

/// A store from which substates are read.
pub trait ReadableSubstateStore {
    /// The substate kept under `id`, if any.
    spec fn spec_get(&self, id: SubstateId) -> Option<Substate>;

    /// Reads the substate kept under `substate_id`.
    fn get_substate(&self, substate_id: &SubstateId) -> (r: Option<&Substate>)
        ensures
            match self.spec_get(*substate_id) {
                Some(s) => r matches Some(t) && *t == s,
                None => r is None,
            },
    ;
}

/// Whether two addresses are the same.
pub(crate) fn same_bytes(a: &[u8; 27], b: &[u8; 27]) -> (r: bool)
    ensures
        r == (*a == *b),
{
    let mut i: usize = 0;
    while i < 27
        invariant
            i <= 27,
            forall|j: int| 0 <= j < i ==> a@[j] == b@[j],
        decreases 27 - i,
    {
        if a[i] != b[i] {
            return false;
        }
        i += 1;
    }
    proof {
        assert(a@ =~= b@);
        vstd::array::axiom_array_ext_equal(*a, *b);
    }
    true
}

/// Whether two substate ids are the same.
fn same_substate_id(a: &SubstateId, b: &SubstateId) -> (r: bool)
    ensures
        r == (*a == *b),
{
    match (a, b) {
        (SubstateId::ComponentInfo(x), SubstateId::ComponentInfo(y)) => same_bytes(&x.0, &y.0),
        (SubstateId::Package(x), SubstateId::Package(y)) => same_bytes(&x.0, &y.0),
        _ => false,
    }
}

/// The substate kept under `id` in a list of writes: the latest write wins.
pub open spec fn latest_write(writes: Seq<(SubstateId, Substate)>, id: SubstateId) -> Option<
    Substate,
>
    decreases writes.len(),
{
    if writes.len() == 0 {
        None
    } else if writes.last().0 == id {
        Some(writes.last().1)
    } else {
        latest_write(writes.drop_last(), id)
    }
}

/// A substate store held in memory, as a list of writes.
pub struct InMemorySubstateStore {
    writes: Vec<(SubstateId, Substate)>,
}

impl InMemorySubstateStore {
    /// An empty store.
    pub fn new() -> (r: Self)
        ensures
            forall|id: SubstateId| #[trigger] r.spec_get(id) is None,
    {
        InMemorySubstateStore { writes: Vec::new() }
    }

    /// Keeps `substate` under `substate_id`, in place of what was kept there.
    pub fn put_substate(&mut self, substate_id: SubstateId, substate: Substate)
        ensures
            final(self).spec_get(substate_id) == Some(substate),
            forall|id: SubstateId|
                id != substate_id ==> #[trigger] final(self).spec_get(id) == old(self).spec_get(id),
    {
        let ghost before = self.writes@;
        self.writes.push((substate_id, substate));
        assert(self.writes@.drop_last() =~= before);
    }
}

impl ReadableSubstateStore for InMemorySubstateStore {
    closed spec fn spec_get(&self, id: SubstateId) -> Option<Substate> {
        latest_write(self.writes@, id)
    }

    fn get_substate(&self, substate_id: &SubstateId) -> (r: Option<&Substate>) {
        let mut i = self.writes.len();
        assert(self.writes@.subrange(0, i as int) =~= self.writes@);
        while i > 0
            invariant
                i <= self.writes@.len(),
                latest_write(self.writes@, *substate_id) == latest_write(
                    self.writes@.subrange(0, i as int),
                    *substate_id,
                ),
            decreases i,
        {
            let ghost prefix = self.writes@.subrange(0, i as int);
            assert(prefix.drop_last() =~= self.writes@.subrange(0, i - 1));
            if same_substate_id(&self.writes[i - 1].0, substate_id) {
                return Some(&self.writes[i - 1].1);
            }
            i -= 1;
        }
        None
    }
}

} // verus!
