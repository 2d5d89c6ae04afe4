use radix_engine_core::abi_extractor::{export_abi, export_abi_by_component};
use radix_engine_core::errors::{KernelError, RENodeId, RuntimeError};
use radix_engine_core::errors::DecodeError;
use radix_engine_core::kernel::InMemoryKernel;
use radix_engine_core::package::{
    BlueprintAbi, FnAbi, Package, PackageError, PackageFnIdentifier, PackagePublishInput,
    PrepareError, SelfMutability, ValidatedPackage,
};
use radix_engine_core::substate::{ComponentInfo, InMemorySubstateStore, Substate, SubstateId};
use radix_engine_core::types::{ComponentAddress, PackageAddress};

fn abi(names: &[&str]) -> BlueprintAbi {
    BlueprintAbi {
        fns: names
            .iter()
            .map(|n| FnAbi {
                ident: n.to_string(),
                mutability: if n.starts_with("get") { Some(SelfMutability::Immutable) } else { None },
                export_name: format!("Hello_{}", n),
            })
            .collect(),
    }
}

fn idents(a: &BlueprintAbi) -> Vec<String> {
    a.fns.iter().map(|f| f.ident.clone()).collect()
}

fn package() -> Package {
    let mut p = Package::new(vec![0, 97, 115, 109]);
    p.add_blueprint("Hello".to_string(), abi(&["new", "get_count"]));
    p.add_blueprint("Other".to_string(), abi(&["make"]));
    p
}

#[test]
fn validated_package_keeps_code_and_abis() {
    let v = ValidatedPackage::new(package(), Ok(())).unwrap();
    assert_eq!(v.code(), &[0u8, 97, 115, 109][..]);
    assert_eq!(idents(v.blueprint_abi("Hello").unwrap()), vec!["new", "get_count"]);
    assert_eq!(idents(v.blueprint_abi("Other").unwrap()), vec!["make"]);
    assert!(v.blueprint_abi("Missing").is_none());
}

#[test]
fn validated_package_refused_by_validator() {
    let r = ValidatedPackage::new(package(), Err(PrepareError::NoExportSection));
    assert!(matches!(r, Err(PrepareError::NoExportSection)));
    let r = ValidatedPackage::new(
        package(),
        Err(PrepareError::MissingExport { export_name: "Hello_main".to_string() }),
    );
    match r {
        Err(PrepareError::MissingExport { export_name }) => assert_eq!(export_name, "Hello_main"),
        _ => panic!("expected the validator's error"),
    }
}

fn store_with_package(addr: PackageAddress) -> InMemorySubstateStore {
    let mut store = InMemorySubstateStore::new();
    let v = ValidatedPackage::new(package(), Ok(())).unwrap();
    store.put_substate(SubstateId::Package(addr), Substate::Package(v));
    store
}

#[test]
fn export_abi_of_published_blueprint() {
    let addr = PackageAddress([5u8; 27]);
    let store = store_with_package(addr);
    let a = export_abi(&store, addr, "Hello").unwrap();
    assert_eq!(idents(&a), vec!["new", "get_count"]);
    assert_eq!(a.fns[1].export_name, "Hello_get_count");
    assert!(matches!(a.fns[1].mutability, Some(SelfMutability::Immutable)));
}

#[test]
fn export_abi_of_missing_package() {
    let store = store_with_package(PackageAddress([5u8; 27]));
    let other = PackageAddress([6u8; 27]);
    match export_abi(&store, other, "Hello") {
        Err(RuntimeError::KernelError(KernelError::PackageNotFound(a))) => assert_eq!(a.0, other.0),
        _ => panic!("expected PackageNotFound"),
    }
}

#[test]
fn export_abi_of_missing_blueprint() {
    let addr = PackageAddress([5u8; 27]);
    let store = store_with_package(addr);
    match export_abi(&store, addr, "Nope") {
        Err(RuntimeError::KernelError(KernelError::BlueprintNotFound(a, n))) => {
            assert_eq!(a.0, addr.0);
            assert_eq!(n, "Nope");
        }
        _ => panic!("expected BlueprintNotFound"),
    }
}

#[test]
fn export_abi_by_component_follows_component_info() {
    let addr = PackageAddress([5u8; 27]);
    let comp = ComponentAddress([9u8; 27]);
    let mut store = store_with_package(addr);
    store.put_substate(
        SubstateId::ComponentInfo(comp),
        Substate::ComponentInfo(ComponentInfo::new(addr, "Other".to_string())),
    );
    let a = export_abi_by_component(&store, comp).unwrap();
    assert_eq!(idents(&a), vec!["make"]);
    let missing = ComponentAddress([10u8; 27]);
    match export_abi_by_component(&store, missing) {
        Err(RuntimeError::KernelError(KernelError::RENodeNotFound(RENodeId::Component(c)))) => {
            assert_eq!(c.0, missing.0)
        }
        _ => panic!("expected RENodeNotFound"),
    }
}

#[test]
fn store_read_gives_back_latest_write() {
    let addr = PackageAddress([5u8; 27]);
    let mut store = store_with_package(addr);
    let mut p = Package::new(vec![1]);
    p.add_blueprint("Fresh".to_string(), abi(&["f"]));
    store.put_substate(SubstateId::Package(addr), Substate::Package(ValidatedPackage::new(p, Ok(())).unwrap()));
    assert!(export_abi(&store, addr, "Hello").is_err());
    assert_eq!(idents(&export_abi(&store, addr, "Fresh").unwrap()), vec!["f"]);
}

#[test]
fn publish_then_export_abi() {
    let mut kernel = InMemoryKernel::new(InMemorySubstateStore::new());
    let a = ValidatedPackage::static_main(
        PackageFnIdentifier::Publish,
        Ok(PackagePublishInput { package: package() }),
        Ok(()),
        &mut kernel,
    )
    .unwrap();
    assert_eq!(idents(&export_abi(kernel.store(), a, "Hello").unwrap()), vec!["new", "get_count"]);
    let b = ValidatedPackage::static_main(
        PackageFnIdentifier::Publish,
        Ok(PackagePublishInput { package: package() }),
        Ok(()),
        &mut kernel,
    )
    .unwrap();
    assert_ne!(a.0, b.0);
}

#[test]
fn publish_with_bad_call_data_or_code() {
    let mut kernel = InMemoryKernel::new(InMemorySubstateStore::new());
    let r = ValidatedPackage::static_main(
        PackageFnIdentifier::Publish,
        Err(DecodeError::InvalidUtf8),
        Ok(()),
        &mut kernel,
    );
    assert!(matches!(r, Err(PackageError::InvalidRequestData(DecodeError::InvalidUtf8))));
    let r = ValidatedPackage::static_main(
        PackageFnIdentifier::Publish,
        Ok(PackagePublishInput { package: package() }),
        Err(PrepareError::NotInstantiatable),
        &mut kernel,
    );
    assert!(matches!(r, Err(PackageError::InvalidWasm(PrepareError::NotInstantiatable))));
}
