use did_registry::error::ErrorCode;
use did_registry::program::{create_key_registry, resize_key_registry};
use did_registry::size::INITIAL_CAPACITY;
use did_registry::state::{ControllerRegistry, KeyRegistry};
use std::collections::BTreeSet;

fn key(n: u8) -> [u8; 32] {
    let mut k = [0u8; 32];
    k[0] = n;
    k[31] = n.wrapping_mul(7);
    k
}

fn roomy() -> usize {
    resize_key_registry(64) as usize
}

#[test]
fn sizes_follow_the_layout() {
    assert_eq!(KeyRegistry::calculate_size(0), 37);
    assert_eq!(KeyRegistry::calculate_size(4), 165);
    assert_eq!(ControllerRegistry::calculate_size(1), 69);
    assert_eq!(KeyRegistry::calculate_size(u32::MAX), 37 + 32 * (u32::MAX as u64));
    assert_eq!(resize_key_registry(INITIAL_CAPACITY), 173);
    assert_eq!(resize_key_registry(8), 301);
}

#[test]
fn add_then_contains() {
    let mut r = create_key_registry(key(1));
    assert!(!r.contains(&key(2)));
    assert_eq!(r.add(key(2), roomy()), Ok(()));
    assert!(r.contains(&key(2)));
    assert_eq!(r.dids, vec![key(2)]);
}

#[test]
fn remove_then_absent() {
    let mut r = create_key_registry(key(1));
    r.add(key(2), roomy()).unwrap();
    r.add(key(3), roomy()).unwrap();
    assert_eq!(r.remove(&key(2)), Ok(()));
    assert!(!r.contains(&key(2)));
    assert!(r.contains(&key(3)));
}

#[test]
fn adding_twice_is_refused() {
    let mut r = create_key_registry(key(1));
    r.add(key(2), roomy()).unwrap();
    let before = r.dids.clone();
    assert_eq!(r.add(key(2), roomy()), Err(ErrorCode::DIDRegistered));
    assert_eq!(r.dids, before);
    assert_eq!(r.dids.len(), 1);
}

#[test]
fn removing_absent_is_refused() {
    let mut r = create_key_registry(key(1));
    r.add(key(2), roomy()).unwrap();
    let before = r.dids.clone();
    assert_eq!(r.remove(&key(9)), Err(ErrorCode::DIDNotRegistered));
    assert_eq!(r.dids, before);
    let mut empty = create_key_registry(key(1));
    assert_eq!(empty.remove(&key(9)), Err(ErrorCode::DIDNotRegistered));
    assert!(empty.dids.is_empty());
}

#[test]
fn full_until_resized() {
    let mut r = create_key_registry(key(1));
    let initial = resize_key_registry(INITIAL_CAPACITY) as usize;
    for n in 2..6 {
        assert_eq!(r.add(key(n), initial), Ok(()));
    }
    let before = r.dids.clone();
    assert_eq!(r.add(key(6), initial), Err(ErrorCode::RegistryFull));
    assert_eq!(r.dids, before);
    // one byte short of room for a fifth member
    assert_eq!(r.add(key(6), resize_key_registry(5) as usize - 1), Err(ErrorCode::RegistryFull));
    assert_eq!(r.add(key(6), resize_key_registry(5) as usize), Ok(()));
    assert_eq!(r.dids.len(), 5);
}

#[test]
fn duplicate_is_reported_before_full() {
    let mut r = create_key_registry(key(1));
    r.add(key(2), roomy()).unwrap();
    assert_eq!(r.add(key(2), 0), Err(ErrorCode::DIDRegistered));
    assert_eq!(r.add(key(3), 0), Err(ErrorCode::RegistryFull));
}

#[test]
fn removal_swaps_in_the_last_member() {
    let mut r = create_key_registry(key(1));
    for n in 2..6 {
        r.add(key(n), roomy()).unwrap();
    }
    let before: BTreeSet<[u8; 32]> = r.dids.iter().copied().collect();
    assert_eq!(r.remove(&key(2)), Ok(()));
    assert_eq!(r.dids, vec![key(5), key(3), key(4)]);
    let after: BTreeSet<[u8; 32]> = r.dids.iter().copied().collect();
    let mut expected = before.clone();
    expected.remove(&key(2));
    assert_eq!(after, expected);
    assert_eq!(r.remove(&key(4)), Ok(()));
    assert_eq!(r.dids, vec![key(5), key(3)]);
}

#[test]
fn controller_registry_members() {
    let mut r = ControllerRegistry { version: 0, did: key(1), controlled_dids: Vec::new() };
    assert_eq!(r.add(key(2), roomy()), Ok(()));
    assert_eq!(r.add(key(2), roomy()), Err(ErrorCode::DIDRegistered));
    assert!(r.contains(&key(2)));
    assert_eq!(r.remove(&key(3)), Err(ErrorCode::DIDNotRegistered));
    assert_eq!(r.remove(&key(2)), Ok(()));
    assert!(r.controlled_dids.is_empty());
    assert_eq!(r.did, key(1));
}
