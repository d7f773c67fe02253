use did_registry::error::ErrorCode;
use did_registry::program::{
    authorize, close_controller_registry_with, close_key_registry, create_controller_registry_with, create_key_registry,
    register_controlled_did_with, register_did_for_eth_address_with,
    register_did_signed_by_eth_address_with, register_did_with, remove_controlled_did_with,
    remove_did, resize_controller_registry, resize_key_registry,
};
use did_registry::size::INITIAL_CAPACITY;

fn key(n: u8) -> [u8; 32] {
    [n; 32]
}

#[test]
fn key_registry_end_to_end() {
    let owner = key(1);
    let mut r = create_key_registry(owner);
    assert_eq!(r.authority, owner);
    assert_eq!(r.version, 0);
    let mut data_len = resize_key_registry(INITIAL_CAPACITY) as usize;
    assert_eq!(register_did_with(&mut r, owner, Some(true), key(11), data_len), Ok(()));
    assert_eq!(r.dids, vec![key(11)]);
    assert_eq!(register_did_with(&mut r, owner, Some(true), key(11), data_len), Err(ErrorCode::DIDRegistered));
    for n in 12..15 {
        assert_eq!(register_did_with(&mut r, owner, Some(true), key(n), data_len), Ok(()));
    }
    assert_eq!(r.dids.len(), 4);
    assert_eq!(register_did_with(&mut r, owner, Some(true), key(15), data_len), Err(ErrorCode::RegistryFull));
    assert_eq!(r.dids.len(), 4);
    data_len = resize_key_registry(8) as usize;
    assert_eq!(register_did_with(&mut r, owner, Some(true), key(15), data_len), Ok(()));
    assert_eq!(r.dids.len(), 5);
    assert_eq!(r.authority, owner);
}

#[test]
fn register_did_needs_the_owner_and_an_authority() {
    let owner = key(1);
    let mut r = create_key_registry(owner);
    let data_len = resize_key_registry(INITIAL_CAPACITY) as usize;
    assert_eq!(register_did_with(&mut r, key(2), Some(true), key(11), data_len), Err(ErrorCode::NotAuthority));
    assert_eq!(register_did_with(&mut r, owner, Some(false), key(11), data_len), Err(ErrorCode::NotAuthority));
    assert_eq!(register_did_with(&mut r, owner, None, key(11), data_len), Err(ErrorCode::DIDError));
    assert!(r.dids.is_empty());
}

#[test]
fn remove_did_needs_the_owner() {
    let owner = key(1);
    let mut r = create_key_registry(owner);
    let data_len = resize_key_registry(INITIAL_CAPACITY) as usize;
    register_did_with(&mut r, owner, Some(true), key(11), data_len).unwrap();
    assert_eq!(remove_did(&mut r, key(2), key(11)), Err(ErrorCode::NotAuthority));
    assert_eq!(r.dids, vec![key(11)]);
    assert_eq!(remove_did(&mut r, owner, key(12)), Err(ErrorCode::DIDNotRegistered));
    assert_eq!(remove_did(&mut r, owner, key(11)), Ok(()));
    assert!(r.dids.is_empty());
}

#[test]
fn close_key_registry_needs_the_owner() {
    let r = create_key_registry(key(1));
    assert_eq!(close_key_registry(&r, key(1)), Ok(()));
    assert_eq!(close_key_registry(&r, key(2)), Err(ErrorCode::NotAuthority));
}

#[test]
fn oracle_answers_map_to_errors() {
    assert_eq!(authorize(Some(true)), Ok(()));
    assert_eq!(authorize(Some(false)), Err(ErrorCode::NotAuthority));
    assert_eq!(authorize(None), Err(ErrorCode::DIDError));
}

#[test]
fn eth_address_registration_needs_both_authorities() {
    let mut r = create_key_registry([0u8; 32]);
    let data_len = resize_key_registry(INITIAL_CAPACITY) as usize;
    assert_eq!(register_did_for_eth_address_with(&mut r, Some(false), Some(true), key(11), data_len), Err(ErrorCode::NotAuthority));
    assert_eq!(register_did_for_eth_address_with(&mut r, Some(true), Some(false), key(11), data_len), Err(ErrorCode::NotAuthority));
    assert_eq!(register_did_for_eth_address_with(&mut r, None, Some(true), key(11), data_len), Err(ErrorCode::DIDError));
    assert_eq!(register_did_for_eth_address_with(&mut r, Some(true), None, key(11), data_len), Err(ErrorCode::DIDError));
    assert!(r.dids.is_empty());
    assert_eq!(register_did_for_eth_address_with(&mut r, Some(true), Some(true), key(11), data_len), Ok(()));
    assert_eq!(register_did_for_eth_address_with(&mut r, Some(true), Some(true), key(11), data_len), Err(ErrorCode::DIDRegistered));
    assert_eq!(register_did_for_eth_address_with(&mut r, Some(true), Some(true), key(12), 0), Err(ErrorCode::RegistryFull));
    assert_eq!(r.dids, vec![key(11)]);
}

#[test]
fn signed_registration_checks_the_signer_first() {
    let mut r = create_key_registry([0u8; 32]);
    let data_len = resize_key_registry(INITIAL_CAPACITY) as usize;
    let address = [7u8; 20];
    assert_eq!(register_did_signed_by_eth_address_with(&mut r, None, address, Some(true), key(11), data_len), Err(ErrorCode::InvalidEthSignature));
    assert_eq!(register_did_signed_by_eth_address_with(&mut r, Some([8u8; 20]), address, Some(true), key(11), data_len), Err(ErrorCode::WrongEthSigner));
    assert_eq!(register_did_signed_by_eth_address_with(&mut r, Some([8u8; 20]), address, Some(false), key(11), data_len), Err(ErrorCode::WrongEthSigner));
    assert_eq!(register_did_signed_by_eth_address_with(&mut r, Some(address), address, Some(false), key(11), data_len), Err(ErrorCode::NotAuthority));
    assert!(r.dids.is_empty());
    assert_eq!(register_did_signed_by_eth_address_with(&mut r, Some(address), address, Some(true), key(11), data_len), Ok(()));
    assert_eq!(r.dids, vec![key(11)]);
}

#[test]
fn controller_registry_end_to_end() {
    let subject = key(1);
    let controlled = key(2);
    assert_eq!(create_controller_registry_with(subject, Some(false)).err(), Some(ErrorCode::NotAuthority));
    assert_eq!(create_controller_registry_with(subject, None).err(), Some(ErrorCode::DIDError));
    let mut r = create_controller_registry_with(subject, Some(true)).unwrap();
    assert_eq!(r.did, subject);
    assert!(r.controlled_dids.is_empty());
    let data_len = resize_controller_registry(INITIAL_CAPACITY) as usize;
    assert_eq!(register_controlled_did_with(&mut r, Some(false), Some(true), controlled, data_len), Err(ErrorCode::NotAuthority));
    assert_eq!(register_controlled_did_with(&mut r, Some(true), Some(false), controlled, data_len), Err(ErrorCode::NotController));
    assert_eq!(register_controlled_did_with(&mut r, Some(false), Some(false), controlled, data_len), Err(ErrorCode::NotAuthority));
    assert_eq!(register_controlled_did_with(&mut r, Some(true), None, controlled, data_len), Err(ErrorCode::DIDError));
    assert!(r.controlled_dids.is_empty());
    assert_eq!(register_controlled_did_with(&mut r, Some(true), Some(true), controlled, data_len), Ok(()));
    assert_eq!(r.controlled_dids, vec![controlled]);
    assert_eq!(register_controlled_did_with(&mut r, Some(true), Some(true), controlled, data_len), Err(ErrorCode::DIDRegistered));
    assert_eq!(register_controlled_did_with(&mut r, Some(true), Some(true), key(3), 0), Err(ErrorCode::RegistryFull));
}

#[test]
fn controlled_did_removal_needs_only_authority() {
    let mut r = create_controller_registry_with(key(1), Some(true)).unwrap();
    let data_len = resize_controller_registry(INITIAL_CAPACITY) as usize;
    register_controlled_did_with(&mut r, Some(true), Some(true), key(2), data_len).unwrap();
    assert_eq!(remove_controlled_did_with(&mut r, Some(false), key(2)), Err(ErrorCode::NotAuthority));
    assert_eq!(remove_controlled_did_with(&mut r, None, key(2)), Err(ErrorCode::DIDError));
    assert_eq!(r.controlled_dids, vec![key(2)]);
    assert_eq!(remove_controlled_did_with(&mut r, Some(true), key(3)), Err(ErrorCode::DIDNotRegistered));
    assert_eq!(remove_controlled_did_with(&mut r, Some(true), key(2)), Ok(()));
    assert!(r.controlled_dids.is_empty());
}

#[test]
fn closing_a_controller_registry_needs_its_own_did() {
    let r = create_controller_registry_with(key(1), Some(true)).unwrap();
    assert_eq!(close_controller_registry_with(&r, key(1), Some(true)), Ok(()));
    assert_eq!(close_controller_registry_with(&r, key(2), Some(true)), Err(ErrorCode::NotAuthority));
    assert_eq!(close_controller_registry_with(&r, key(1), Some(false)), Err(ErrorCode::NotAuthority));
    assert_eq!(close_controller_registry_with(&r, key(1), None), Err(ErrorCode::DIDError));
    assert_eq!(close_controller_registry_with(&r, key(2), None), Err(ErrorCode::NotAuthority));
}
