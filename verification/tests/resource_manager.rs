use radix_engine_core::resource_manager::{
    AccessRule, AccessRules, AddressError, Bucket, Decimal, MintParams, Mutability,
    NonFungibleBytes, NonFungibleEntries, NonFungibleId, ProofRule,
    RadixEngineInput, ResourceBehavior, ResourceManager, ResourceManagerCall,
    ResourceMethodAuthKey,
};
use radix_engine_core::types::{ResourceAddress, SNodeRef};

fn target(r: &RadixEngineInput) -> (&SNodeRef, &str, &ResourceManagerCall) {
    match r {
        RadixEngineInput::InvokeSNode(s, m, c) => (s, m.as_str(), c),
    }
}

#[test]
fn behavior_predicates() {
    let cases = [(false, false), (false, true), (true, false), (true, true)];
    for (enabled, locked) in cases {
        let b = ResourceBehavior::from_reply((enabled, locked));
        assert_eq!(b.is_enabled(), enabled);
        assert_eq!(b.is_locked(), locked);
        assert_eq!(b.is_disabled(), !enabled);
        assert_eq!(b.is_mutable(), !locked);
        assert_eq!(b.is_permanently_enabled(), enabled && locked);
        assert_eq!(b.is_permanently_disabled(), !enabled && locked);
        let kinds = [b.is_permanently_enabled(), b.is_permanently_disabled(), b.is_mutable()];
        assert_eq!(kinds.iter().filter(|k| **k).count(), 1);
    }
}

#[test]
fn address_from_bytes() {
    let bytes: Vec<u8> = (0..27).collect();
    let a = ResourceAddress::try_from(&bytes).unwrap();
    assert_eq!(a.to_vec(), bytes);
    assert!(matches!(ResourceAddress::try_from(&bytes[..26]), Err(AddressError::InvalidLength(26))));
    assert!(matches!(ResourceAddress::try_from(&[]), Err(AddressError::InvalidLength(0))));
    let long = vec![1u8; 28];
    assert!(matches!(ResourceAddress::try_from(&long), Err(AddressError::InvalidLength(28))));
}

#[test]
fn auth_requests() {
    let addr = ResourceAddress([4u8; 27]);
    let mut rm = ResourceManager(addr);
    let rule = AccessRule::Protected(ProofRule::Require(ResourceAddress([8u8; 27])));
    let r = rm.set_mintable(rule);
    let (s, m, c) = target(&r);
    assert!(matches!(s, SNodeRef::ResourceRef(a) if a.0 == addr.0));
    assert_eq!(m, "update_auth");
    assert!(matches!(c, ResourceManagerCall::UpdateAuth(i) if i.method == ResourceMethodAuthKey::Mint));
    let r = rm.set_updateable_non_fungible_data(AccessRule::AllowAll);
    assert!(matches!(target(&r).2, ResourceManagerCall::UpdateAuth(i)
        if i.method == ResourceMethodAuthKey::UpdateNonFungibleData));
    let r = rm.lock_withdrawable();
    assert_eq!(target(&r).1, "lock_auth");
    assert!(matches!(target(&r).2, ResourceManagerCall::LockAuth(i) if i.method == ResourceMethodAuthKey::Withdraw));
    let r = rm.deposit_behavior();
    assert_eq!(target(&r).1, "get_behavior");
    assert!(matches!(target(&r).2, ResourceManagerCall::CheckBehavior(i) if i.method == ResourceMethodAuthKey::Deposit));
}

#[test]
fn mint_requests() {
    let mut rm = ResourceManager(ResourceAddress([4u8; 27]));
    let r = rm.mint(Decimal(5_000_000_000_000_000_000));
    assert_eq!(target(&r).1, "mint");
    assert!(matches!(target(&r).2, ResourceManagerCall::Mint(i)
        if matches!(i.mint_params, MintParams::Fungible { amount } if amount.0 == 5_000_000_000_000_000_000)));
    let r = rm.mint(7i64);
    assert!(matches!(target(&r).2, ResourceManagerCall::Mint(i)
        if matches!(i.mint_params, MintParams::Fungible { amount } if amount.0 == 7_000_000_000_000_000_000)));
    let id = NonFungibleId(vec![1, 2]);
    let r = rm.mint_non_fungible(&id, NonFungibleBytes { immutable: b"ace".to_vec(), mutable: vec![3] });
    match target(&r).2 {
        ResourceManagerCall::Mint(i) => match &i.mint_params {
            MintParams::NonFungible { entries } => {
                let e = entries.entries();
                assert_eq!(e.len(), 1);
                assert_eq!(e[0].0 .0, vec![1, 2]);
                assert_eq!(e[0].1, b"ace".to_vec());
                assert_eq!(e[0].2, vec![3]);
            }
            _ => panic!("expected non-fungible mint"),
        },
        _ => panic!("expected mint"),
    }
    let r = rm.update_non_fungible_data(&id, NonFungibleBytes { immutable: vec![8], mutable: vec![9] });
    assert_eq!(target(&r).1, "update_non_fungible_data");
    assert!(matches!(target(&r).2, ResourceManagerCall::UpdateNonFungibleData(i) if i.data == vec![9] && i.id.0 == vec![1, 2]));
    let r = rm.get_non_fungible_data(&id);
    assert_eq!(target(&r).1, "non_fungible_data");
    assert!(matches!(target(&r).2, ResourceManagerCall::GetNonFungible(i) if i.id.0 == vec![1, 2]));
}

#[test]
fn non_fungible_data_from_reply_takes_immutable_then_mutable() {
    let d: NonFungibleBytes = ResourceManager::non_fungible_data_from_reply([vec![1, 2], vec![3]]);
    assert_eq!(d.immutable, vec![1, 2]);
    assert_eq!(d.mutable, vec![3]);
}

#[test]
fn non_fungible_entries_keep_ids_distinct() {
    let mut e = NonFungibleEntries::new();
    e.insert(NonFungibleId(vec![1]), vec![10], vec![11]);
    e.insert(NonFungibleId(vec![2]), vec![20], vec![21]);
    e.insert(NonFungibleId(vec![1]), vec![30], vec![31]);
    let v = e.entries();
    assert_eq!(v.len(), 2);
    assert_eq!((v[0].0 .0.clone(), v[0].1.clone(), v[0].2.clone()), (vec![1], vec![30], vec![31]));
    assert_eq!((v[1].0 .0.clone(), v[1].1.clone(), v[1].2.clone()), (vec![2], vec![20], vec![21]));
}

#[test]
fn access_rules_hold_one_rule_per_method() {
    let mut rules = AccessRules::new();
    assert!(rules.get(ResourceMethodAuthKey::Mint).is_none());
    rules.insert(ResourceMethodAuthKey::Mint, AccessRule::AllowAll, Mutability::LOCKED);
    rules.insert(ResourceMethodAuthKey::Mint, AccessRule::DenyAll, Mutability::MUTABLE(AccessRule::AllowAll));
    assert!(matches!(rules.get(ResourceMethodAuthKey::Mint), Some((AccessRule::DenyAll, Mutability::MUTABLE(_)))));
    assert!(rules.get(ResourceMethodAuthKey::Burn).is_none());
}

#[test]
fn read_requests() {
    let rm = ResourceManager(ResourceAddress([4u8; 27]));
    assert_eq!(target(&rm.metadata()).1, "metadata");
    assert!(matches!(target(&rm.metadata()).2, ResourceManagerCall::GetMetadata(_)));
    assert_eq!(target(&rm.resource_type()).1, "resource_type");
    assert_eq!(target(&rm.total_supply()).1, "total_supply");
    let r = rm.non_fungible_exists(&NonFungibleId(vec![5]));
    assert_eq!(target(&r).1, "non_fungible_exists");
    assert!(matches!(target(&r).2, ResourceManagerCall::NonFungibleExists(i) if i.id.0 == vec![5]));
}

#[test]
fn burn_consumes_the_bucket() {
    let rm = ResourceManager(ResourceAddress([4u8; 27]));
    let r = rm.burn(Bucket(7));
    let (s, m, c) = target(&r);
    assert!(matches!(s, SNodeRef::Consumed(radix_engine_core::types::ValueId::Bucket(7))));
    assert_eq!(m, "burn");
    assert!(matches!(c, ResourceManagerCall::BurnBucket(_)));
}
