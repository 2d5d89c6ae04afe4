//! Packages: compiled code together with the ABIs of its blueprints.
use vstd::prelude::*;
use vstd::hash_map::StringHashMap;

use crate::errors::{DecodeError, RENodeId, RuntimeError};
use crate::kernel::{HeapRENode, SystemApi, SystemApiCall};
use crate::types::PackageAddress;

verus! {

/// Whether a method reads or writes the component it is called on.
#[derive(Clone, Copy, Debug)]
pub enum SelfMutability {
    Immutable,
    Mutable,
}

/// The ABI of one function or method of a blueprint.
#[derive(Debug)]
pub struct FnAbi {
    /// The name by which the function is called.
    pub ident: String,
    /// `None` for a function, `Some` for a method.
    pub mutability: Option<SelfMutability>,
    /// The name under which the code exports the function.
    pub export_name: String,
}

/// What an ABI of one function states.
pub struct FnAbiView {
    pub ident: Seq<char>,
    pub mutability: Option<SelfMutability>,
    pub export_name: Seq<char>,
}

impl View for FnAbi {
    type V = FnAbiView;

    open spec fn view(&self) -> FnAbiView {
        FnAbiView { ident: self.ident@, mutability: self.mutability, export_name: self.export_name@ }
    }
}

impl FnAbi {
    /// A copy of the ABI.
    pub fn duplicate(&self) -> (r: FnAbi)
        ensures
            r@ == self@,
    {
        FnAbi {
            ident: self.ident.clone(),
            mutability: self.mutability,
            export_name: self.export_name.clone(),
        }
    }
}

/// The ABI of a blueprint: its functions and methods.
#[derive(Debug)]
pub struct BlueprintAbi {
    pub fns: Vec<FnAbi>,
}

impl View for BlueprintAbi {
    type V = Seq<FnAbiView>;

    open spec fn view(&self) -> Seq<FnAbiView> {
        self.fns@.map_values(|f: FnAbi| f@)
    }
}

impl BlueprintAbi {
    /// A copy of the ABI.
    pub fn duplicate(&self) -> (r: BlueprintAbi)
        ensures
            r@ == self@,
    {
        let mut fns: Vec<FnAbi> = Vec::new();
        let n = self.fns.len();
        for i in 0..n
            invariant
                n == self.fns@.len(),
                fns@.len() == i,
                forall|j: int| 0 <= j < i ==> #[trigger] fns@[j]@ == self.fns@[j]@,
        {
            fns.push(self.fns[i].duplicate());
        }
        let r = BlueprintAbi { fns };
        assert(r@ =~= self@);
        r
    }
}

/// A package as it is submitted for publishing.
pub struct Package {
    /// The wasm code.
    pub code: Vec<u8>,
    /// The ABIs of the blueprints, by blueprint name.
    pub blueprints: StringHashMap<BlueprintAbi>,
}

impl Package {
    /// A package of the given code, with no blueprint yet.
    pub fn new(code: Vec<u8>) -> (r: Self)
        ensures
            r.code@ == code@,
            r.blueprints@ == Map::<Seq<char>, BlueprintAbi>::empty(),
    {
        Package { code, blueprints: StringHashMap::new() }
    }

    /// Adds the ABI of a blueprint, in place of any of the same name.
    pub fn add_blueprint(&mut self, name: String, abi: BlueprintAbi)
        ensures
            final(self).code@ == old(self).code@,
            final(self).blueprints@ == old(self).blueprints@.insert(name@, abi),
    {
        self.blueprints.insert(name, abi);
    }
}

/// Why wasm code was refused.
#[derive(Debug)]
pub enum PrepareError {
    DeserializationError,
    ValidationError(String),
    SerializationError,
    StartFunctionNotAllowed,
    InvalidImport,
    InvalidMemory,
    InvalidTable,
    TooManyTargetsInBrTable,
    TooManyFunctions,
    TooManyGlobals,
    TooManyLocals,
    RejectedByInstructionMetering,
    RejectedByStackMetering,
    NoExportSection,
    MissingExport { export_name: String },
    NotInstantiatable,
    NotCompilable,
}

/// A collection of blueprints, compiled and published as a single unit.
pub struct ValidatedPackage {
    code: Vec<u8>,
    blueprint_abis: StringHashMap<BlueprintAbi>,
}

/// What a validated package holds.
pub struct ValidatedPackageView {
    pub code: Seq<u8>,
    pub blueprint_abis: Map<Seq<char>, BlueprintAbi>,
}

impl View for ValidatedPackage {
    type V = ValidatedPackageView;

    closed spec fn view(&self) -> ValidatedPackageView {
        ValidatedPackageView { code: self.code@, blueprint_abis: self.blueprint_abis@ }
    }
}

/// Why invoking a package function failed.
#[derive(Debug)]
pub enum PackageError {
    RuntimeError(Box<RuntimeError>),
    InvalidRequestData(DecodeError),
    InvalidWasm(PrepareError),
    BlueprintNotFound,
    MethodNotFound(String),
}

/// The native functions of packages.
#[derive(Clone, Copy, Debug)]
pub enum PackageFnIdentifier {
    Publish,
}

/// The call data of publishing a package.
pub struct PackagePublishInput {
    pub package: Package,
}

/// What the kernel was asked and what publishing `package` returned, once
/// the call data decoded and the code was accepted: the package is created
/// as a node, an error of that call is returned, otherwise the created node
/// is globalized, an error of that call is returned, otherwise the created
/// node's package address is.
pub open spec fn publish_outcome(
    before: Seq<SystemApiCall>,
    after: Seq<SystemApiCall>,
    package: Package,
    r: Result<PackageAddress, PackageError>,
) -> bool {
    let n = before.len();
    &&& after.len() > n
    &&& after.subrange(0, n as int) == before
    &&& match after[n as int] {
        SystemApiCall::NodeCreate(HeapRENode::Package(p), created) => {
            &&& p@.code == package.code@
            &&& p@.blueprint_abis == package.blueprints@
            &&& match created {
                Err(e) => after.len() == n + 1 && (r matches Err(PackageError::RuntimeError(b))
                    && *b == e),
                Ok(id) => {
                    &&& after.len() == n + 2
                    &&& match after[n + 1int] {
                        SystemApiCall::NodeGlobalize(gid, globalized) => {
                            &&& gid == id
                            &&& match globalized {
                                Err(e) => r matches Err(PackageError::RuntimeError(b)) && *b == e,
                                Ok(()) => id matches RENodeId::Package(a) && r == Ok::<
                                    PackageAddress,
                                    PackageError,
                                >(a),
                            }
                        },
                        _ => false,
                    }
                },
            }
        },
        _ => false,
    }
}

/// Once the call data decoded and the code was accepted, publishing makes
/// one or two kernel calls: on success exactly two, a creation of a package
/// node holding the submitted code and ABIs that returned an id, then a
/// globalization of that id that succeeded, and the address returned is that
/// id's; on failure the error is the kernel's error of the last call.
pub proof fn law_publish_calls_the_kernel(
    before: Seq<SystemApiCall>,
    after: Seq<SystemApiCall>,
    package: Package,
    r: Result<PackageAddress, PackageError>,
)
    requires
        publish_outcome(before, after, package, r),
    ensures
        after.subrange(0, before.len() as int) == before,
        before.len() + 1 <= after.len() <= before.len() + 2,
        r is Ok ==> after.len() == before.len() + 2,
        r matches Ok(a) ==> (after[before.len() as int] matches SystemApiCall::NodeCreate(
            HeapRENode::Package(p),
            Ok(id),
        ) && id == RENodeId::Package(a) && p@.code == package.code@ && p@.blueprint_abis
            == package.blueprints@),
        r matches Ok(a) ==> (after[before.len() + 1int] matches SystemApiCall::NodeGlobalize(
            gid,
            Ok(()),
        ) && gid == RENodeId::Package(a)),
        r is Err ==> (r matches Err(PackageError::RuntimeError(_))),
{
}

impl ValidatedPackage {
    /// Runs a native package function. Publishing takes the decoded call
    /// data and the wasm validator's verdict on its code: a decoding error
    /// or a refusal is returned before the kernel is called; otherwise the
    /// package is created as a node and globalized, and its address returned.
    pub fn static_main<Y: SystemApi>(
        package_fn: PackageFnIdentifier,
        call_data: Result<PackagePublishInput, DecodeError>,
        validation: Result<(), PrepareError>,
        system_api: &mut Y,
    ) -> (r: Result<PackageAddress, PackageError>)
        ensures
            call_data matches Err(e) ==> (r matches Err(PackageError::InvalidRequestData(e2)) && e2
                == e && final(system_api).calls() == old(system_api).calls()),
            call_data is Ok ==> (validation matches Err(e) ==> (r matches Err(
                PackageError::InvalidWasm(e2),
            ) && e2 == e && final(system_api).calls() == old(system_api).calls())),
            call_data matches Ok(input) ==> (validation is Ok ==> publish_outcome(
                old(system_api).calls(),
                final(system_api).calls(),
                input.package,
                r,
            )),
    {
        match package_fn {
            PackageFnIdentifier::Publish => {
                let input = match call_data {
                    Ok(input) => input,
                    Err(e) => {
                        return Err(PackageError::InvalidRequestData(e));
                    },
                };
                let ghost submitted = input.package;
                let package = match ValidatedPackage::new(input.package, validation) {
                    Ok(p) => p,
                    Err(e) => {
                        return Err(PackageError::InvalidWasm(e));
                    },
                };
                let ghost before = system_api.calls();
                let node_id = match system_api.node_create(HeapRENode::Package(package)) {
                    Ok(id) => id,
                    Err(e) => {
                        let r = Err(PackageError::RuntimeError(Box::new(e)));
                        assert(system_api.calls().subrange(0, before.len() as int) =~= before);
                        return r;
                    },
                };
                let ghost mid = system_api.calls();
                match system_api.node_globalize(node_id) {
                    Ok(()) => {},
                    Err(e) => {
                        assert(system_api.calls().subrange(0, before.len() as int) =~= before);
                        return Err(PackageError::RuntimeError(Box::new(e)));
                    },
                }
                assert(system_api.calls().subrange(0, before.len() as int) =~= before);
                match node_id {
                    RENodeId::Package(a) => Ok(a),
                    _ => vstd::pervasive::unreached(),
                }
            },
        }
    }

    /// Accepts a package whose code the wasm validator has judged: the
    /// package is kept as it is when `validation` is `Ok`, and the
    /// validator's error is returned otherwise.
    pub fn new(package: Package, validation: Result<(), PrepareError>) -> (r: Result<
        Self,
        PrepareError,
    >)
        ensures
            validation is Ok ==> (r matches Ok(p) && p@.code == package.code@
                && p@.blueprint_abis == package.blueprints@),
            validation matches Err(e) ==> (r matches Err(e2) && e2 == e),
    {
        match validation {
            Ok(()) => Ok(ValidatedPackage { code: package.code, blueprint_abis: package.blueprints }),
            Err(e) => Err(e),
        }
    }

    /// The package's code.
    pub fn code(&self) -> (r: &[u8])
        ensures
            r@ == self@.code,
    {
        self.code.as_slice()
    }

    /// The ABI of the blueprint of the given name, if the package has one.
    pub fn blueprint_abi(&self, blueprint_name: &str) -> (r: Option<&BlueprintAbi>)
        ensures
            match r {
                Some(abi) => self@.blueprint_abis.contains_key(blueprint_name@) && *abi
                    == self@.blueprint_abis[blueprint_name@],
                None => !self@.blueprint_abis.contains_key(blueprint_name@),
            },
    {
        self.blueprint_abis.get(blueprint_name)
    }
}

} // verus!
