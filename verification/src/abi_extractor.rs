//! Reading the ABI of a blueprint out of the ledger.
use vstd::prelude::*;

use crate::errors::{KernelError, RENodeId, RuntimeError};
use crate::package::BlueprintAbi;
use crate::substate::{ReadableSubstateStore, Substate, SubstateId};
use crate::types::{ComponentAddress, PackageAddress};

verus! {

/// Whether the substate kept under a package's id, if any, is a package.
pub open spec fn package_substate_well_typed<S: ReadableSubstateStore>(
    store: &S,
    package_address: PackageAddress,
) -> bool {
    store.spec_get(SubstateId::Package(package_address)) matches Some(s) ==> s is Package
}

/// What exporting the ABI of `blueprint_name` in `package_address` gives:
/// the package must be in the store and must have such a blueprint.
pub open spec fn export_abi_outcome<S: ReadableSubstateStore>(
    store: &S,
    package_address: PackageAddress,
    blueprint_name: Seq<char>,
    r: Result<BlueprintAbi, RuntimeError>,
) -> bool {
    match store.spec_get(SubstateId::Package(package_address)) {
        None => r matches Err(RuntimeError::KernelError(KernelError::PackageNotFound(a)))
            && a == package_address,
        Some(Substate::Package(p)) => if p@.blueprint_abis.contains_key(blueprint_name) {
            r matches Ok(abi) && abi@ == p@.blueprint_abis[blueprint_name]@
        } else {
            r matches Err(RuntimeError::KernelError(KernelError::BlueprintNotFound(a, n)))
                && a == package_address && n@ == blueprint_name
        },
        Some(_) => false,
    }
}

/// Exports the ABI of the blueprint `blueprint_name` of the package at `package_address`.
pub fn export_abi<S: ReadableSubstateStore>(
    substate_store: &S,
    package_address: PackageAddress,
    blueprint_name: &str,
) -> (r: Result<BlueprintAbi, RuntimeError>)
    requires
        package_substate_well_typed(substate_store, package_address),
    ensures
        export_abi_outcome(substate_store, package_address, blueprint_name@, r),
{
    let package_value = match substate_store.get_substate(&SubstateId::Package(package_address)) {
        Some(s) => s,
        None => {
            return Err(RuntimeError::KernelError(KernelError::PackageNotFound(package_address)));
        },
    };
    let package = match package_value {
        Substate::Package(p) => p,
        Substate::ComponentInfo(_) => {
            proof {
                assert(false);
            }
            return Err(RuntimeError::KernelError(KernelError::PackageNotFound(package_address)));
        },
    };
    match package.blueprint_abi(blueprint_name) {
        Some(abi) => Ok(abi.duplicate()),
        None => Err(
            RuntimeError::KernelError(
                KernelError::BlueprintNotFound(package_address, blueprint_name.to_owned()),
            ),
        ),
    }
}

/// Whether the substate kept under a component's info id, if any, is a
/// component info, and the package it names, if in the store, is a package.
pub open spec fn component_substates_well_typed<S: ReadableSubstateStore>(
    store: &S,
    component_address: ComponentAddress,
) -> bool {
    match store.spec_get(SubstateId::ComponentInfo(component_address)) {
        None => true,
        Some(Substate::ComponentInfo(info)) => package_substate_well_typed(
            store,
            info.spec_package_address(),
        ),
        Some(_) => false,
    }
}

/// Exports the ABI of the blueprint that the component at
/// `component_address` is an instance of.
pub fn export_abi_by_component<S: ReadableSubstateStore>(
    substate_store: &S,
    component_address: ComponentAddress,
) -> (r: Result<BlueprintAbi, RuntimeError>)
    requires
        component_substates_well_typed(substate_store, component_address),
    ensures
        match substate_store.spec_get(SubstateId::ComponentInfo(component_address)) {
            None => r matches Err(
                RuntimeError::KernelError(KernelError::RENodeNotFound(RENodeId::Component(a))),
            ) && a == component_address,
            Some(Substate::ComponentInfo(info)) => export_abi_outcome(
                substate_store,
                info.spec_package_address(),
                info.spec_blueprint_name(),
                r,
            ),
            Some(_) => false,
        },
{
    let component_value = match substate_store.get_substate(
        &SubstateId::ComponentInfo(component_address),
    ) {
        Some(s) => s,
        None => {
            return Err(
                RuntimeError::KernelError(
                    KernelError::RENodeNotFound(RENodeId::Component(component_address)),
                ),
            );
        },
    };
    let component_info = match component_value {
        Substate::ComponentInfo(info) => info,
        Substate::Package(_) => {
            proof {
                assert(false);
            }
            return Err(
                RuntimeError::KernelError(
                    KernelError::RENodeNotFound(RENodeId::Component(component_address)),
                ),
            );
        },
    };
    export_abi(substate_store, component_info.package_address(), component_info.blueprint_name())
}

/// Exporting reads the package kept at the address: where it has a
/// blueprint of the name, the export succeeds with that blueprint's ABI;
/// where it has none, the export fails naming the address and the
/// blueprint; where nothing is kept at the address, the export fails naming
/// the address.
pub proof fn law_export_reads_the_stored_package<S: ReadableSubstateStore>(
    store: &S,
    package_address: PackageAddress,
    blueprint_name: Seq<char>,
    r: Result<BlueprintAbi, RuntimeError>,
)
    requires
        export_abi_outcome(store, package_address, blueprint_name, r),
    ensures
        store.spec_get(SubstateId::Package(package_address)) is None ==> (r matches Err(
            RuntimeError::KernelError(KernelError::PackageNotFound(a)),
        ) && a == package_address),
        forall|p: crate::package::ValidatedPackage|
            store.spec_get(SubstateId::Package(package_address)) == Some(Substate::Package(p))
                ==> (p@.blueprint_abis.contains_key(blueprint_name) ==> (r matches Ok(abi) && abi@
                == p@.blueprint_abis[blueprint_name]@)),
        forall|p: crate::package::ValidatedPackage|
            store.spec_get(SubstateId::Package(package_address)) == Some(Substate::Package(p))
                ==> (!p@.blueprint_abis.contains_key(blueprint_name) ==> (r matches Err(
                RuntimeError::KernelError(KernelError::BlueprintNotFound(a, n)),
            ) && a == package_address && n@ == blueprint_name)),
{
}

} // verus!
