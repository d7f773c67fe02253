use crate::error::{first_failure, ErrorCode};
use crate::eth_signing::{
    address_view, check_eth_signer, eth_recovered_address, recover_address, signer_verdict,
    Secp256k1RawSignature,
};
use crate::members::{add_verdict, grown, keys_equal, remove_verdict, shrunk};
use crate::oracle::{authority_answer, controller_answer, direct_authority};
use crate::size::{account_len, account_size};
use crate::state::{ControllerRegistry, KeyRegistry};
use anchor_lang::prelude::AccountInfo;
use vstd::prelude::*;

verus! {

broadcast use vstd::array::group_array_axioms;

/// What an answer of the authority oracle means: `None` when it could not evaluate
/// the DID, else whether the key is an authority on it.
pub open spec fn authority_verdict(check: Option<bool>) -> Result<(), ErrorCode> {
    match check {
        None => Err(ErrorCode::DIDError),
        Some(false) => Err(ErrorCode::NotAuthority),
        Some(true) => Ok(()),
    }
}

/// What an answer of the controller check means: `None` when a DID document could
/// not be loaded, else whether the controlled DID lists the registry's DID.
pub open spec fn controller_verdict(check: Option<bool>) -> Result<(), ErrorCode> {
    match check {
        None => Err(ErrorCode::DIDError),
        Some(false) => Err(ErrorCode::NotController),
        Some(true) => Ok(()),
    }
}

/// Only the owner of a key registry acts on it.
pub open spec fn owner_verdict(owner: [u8; 32], authority: [u8; 32]) -> Result<(), ErrorCode> {
    if owner == authority {
        Ok(())
    } else {
        Err(ErrorCode::NotAuthority)
    }
}

/// What registering a DID in a key registry answers: the owner is checked first, then
/// the oracle's answer, then the membership rules.
pub open spec fn register_did_verdict(
    registry: KeyRegistry,
    authority: [u8; 32],
    authority_check: Option<bool>,
    did: [u8; 32],
    data_len: int,
) -> Result<(), ErrorCode> {
    first_failure(
        owner_verdict(registry.authority, authority),
        first_failure(authority_verdict(authority_check), add_verdict(registry.dids@, did, data_len)),
    )
}

/// What registering a DID for an Ethereum address answers: the address must be an
/// authority, then the Solana signer, then the membership rules apply.
pub open spec fn register_did_for_eth_address_verdict(
    registry: KeyRegistry,
    eth_check: Option<bool>,
    signer_check: Option<bool>,
    did: [u8; 32],
    data_len: int,
) -> Result<(), ErrorCode> {
    first_failure(
        authority_verdict(eth_check),
        first_failure(authority_verdict(signer_check), add_verdict(registry.dids@, did, data_len)),
    )
}

/// What registering a DID signed by an Ethereum address answers: the signature is
/// checked first, then the oracle's answer for the address, then the membership rules.
pub open spec fn register_did_signed_by_eth_address_verdict(
    registry: KeyRegistry,
    recovered_address: Option<Seq<u8>>,
    eth_address: [u8; 20],
    eth_check: Option<bool>,
    did: [u8; 32],
    data_len: int,
) -> Result<(), ErrorCode> {
    first_failure(
        signer_verdict(recovered_address, eth_address@),
        first_failure(authority_verdict(eth_check), add_verdict(registry.dids@, did, data_len)),
    )
}

/// What registering a controlled DID answers: the signer must be an authority on the
/// registry's DID, then the controlled DID must list it, then the membership rules apply.
pub open spec fn register_controlled_did_verdict(
    registry: ControllerRegistry,
    authority_check: Option<bool>,
    controller_check: Option<bool>,
    controlled_did: [u8; 32],
    data_len: int,
) -> Result<(), ErrorCode> {
    first_failure(
        authority_verdict(authority_check),
        first_failure(
            controller_verdict(controller_check),
            add_verdict(registry.controlled_dids@, controlled_did, data_len),
        ),
    )
}

/// What removing a controlled DID answers: the signer must be an authority on the
/// registry's DID, then the DID must be registered.
pub open spec fn remove_controlled_did_verdict(
    registry: ControllerRegistry,
    authority_check: Option<bool>,
    did: [u8; 32],
) -> Result<(), ErrorCode> {
    first_failure(authority_verdict(authority_check), remove_verdict(registry.controlled_dids@, did))
}

/// What closing a controller registry answers: the DID consulted must be the
/// registry's own, then the signer must be an authority on it.
pub open spec fn close_controller_registry_verdict(
    registry: ControllerRegistry,
    did: [u8; 32],
    authority_check: Option<bool>,
) -> Result<(), ErrorCode> {
    first_failure(
        if registry.did == did {
            Ok(())
        } else {
            Err(ErrorCode::NotAuthority)
        },
        authority_verdict(authority_check),
    )
}

/// Turns an answer of the authority oracle into the operation's verdict.
pub fn authorize(check: Option<bool>) -> (r: Result<(), ErrorCode>)
    ensures
        r == authority_verdict(check),
{
    match check {
        None => Err(ErrorCode::DIDError),
        Some(false) => Err(ErrorCode::NotAuthority),
        Some(true) => Ok(()),
    }
}

/// An empty key registry owned by `authority`.
pub fn create_key_registry(authority: [u8; 32]) -> (r: KeyRegistry)
    ensures
        r.version == 0,
        r.authority == authority,
        r.dids@ == Seq::<[u8; 32]>::empty(),
        r.wf(),
{
    KeyRegistry { version: 0, authority, dids: Vec::new() }
}

/// Registers `did` in the key registry of `authority`, given the oracle's answer to
/// whether `authority` is a direct authority on `did`.
pub fn register_did_with(
    registry: &mut KeyRegistry,
    authority: [u8; 32],
    authority_check: Option<bool>,
    did: [u8; 32],
    data_len: usize,
) -> (r: Result<(), ErrorCode>)
    ensures
        r == register_did_verdict(*old(registry), authority, authority_check, did, data_len as int),
        final(registry).dids@ == grown(old(registry).dids@, r, did),
        final(registry).version == old(registry).version,
        final(registry).authority == old(registry).authority,
        old(registry).wf() ==> final(registry).wf(),
{
    if !keys_equal(&registry.authority, &authority) {
        return Err(ErrorCode::NotAuthority);
    }
    authorize(authority_check)?;
    registry.add(did, data_len)
}

/// Registers `did` in the key registry of `authority`, whose storage is `data_len`
/// bytes, if `authority` is a direct authority on the DID document `did_account`.
pub fn register_did(
    registry: &mut KeyRegistry,
    data_len: usize,
    authority: [u8; 32],
    did: [u8; 32],
    did_account: &AccountInfo,
) -> (r: Result<(), ErrorCode>)
    ensures
        exists|check: Option<bool>|
            #[trigger] register_did_verdict(*old(registry), authority, check, did, data_len as int) == r,
        final(registry).dids@ == grown(old(registry).dids@, r, did),
        final(registry).version == old(registry).version,
        final(registry).authority == old(registry).authority,
        old(registry).wf() ==> final(registry).wf(),
{
    if !keys_equal(&registry.authority, &authority) {
        assert(register_did_verdict(*registry, authority, None, did, data_len as int) == Err::<(), ErrorCode>(ErrorCode::NotAuthority));
        return Err(ErrorCode::NotAuthority);
    }
    let check = authority_answer(direct_authority(did_account, authority.as_slice()));
    let ghost before = *registry;
    let r = register_did_with(registry, authority, check, did, data_len);
    assert(register_did_verdict(before, authority, check, did, data_len as int) == r);
    r
}

/// Unregisters `did` from the key registry of `authority`.
pub fn remove_did(registry: &mut KeyRegistry, authority: [u8; 32], did: [u8; 32]) -> (r: Result<(), ErrorCode>)
    ensures
        r == first_failure(owner_verdict(old(registry).authority, authority), remove_verdict(old(registry).dids@, did)),
        final(registry).dids@ == shrunk(old(registry).dids@, r, did),
        final(registry).version == old(registry).version,
        final(registry).authority == old(registry).authority,
        old(registry).wf() ==> final(registry).wf(),
{
    if !keys_equal(&registry.authority, &authority) {
        return Err(ErrorCode::NotAuthority);
    }
    registry.remove(&did)
}

/// Registers `did` in the key registry of an Ethereum address, given the oracle's
/// answers to whether the address, and then the Solana signer, are direct
/// authorities on `did`.
pub fn register_did_for_eth_address_with(
    registry: &mut KeyRegistry,
    eth_check: Option<bool>,
    signer_check: Option<bool>,
    did: [u8; 32],
    data_len: usize,
) -> (r: Result<(), ErrorCode>)
    ensures
        r == register_did_for_eth_address_verdict(*old(registry), eth_check, signer_check, did, data_len as int),
        final(registry).dids@ == grown(old(registry).dids@, r, did),
        final(registry).version == old(registry).version,
        final(registry).authority == old(registry).authority,
        old(registry).wf() ==> final(registry).wf(),
{
    authorize(eth_check)?;
    authorize(signer_check)?;
    registry.add(did, data_len)
}

/// Registers `did` in the key registry of `eth_address`, whose storage is `data_len`
/// bytes, if both `eth_address` and the Solana signer `authority` are direct
/// authorities on the DID document `did_account`.
pub fn register_did_for_eth_address(
    registry: &mut KeyRegistry,
    data_len: usize,
    authority: [u8; 32],
    eth_address: [u8; 20],
    did: [u8; 32],
    did_account: &AccountInfo,
) -> (r: Result<(), ErrorCode>)
    ensures
        exists|eth_check: Option<bool>, signer_check: Option<bool>|
            #[trigger] register_did_for_eth_address_verdict(*old(registry), eth_check, signer_check, did, data_len as int) == r,
        final(registry).dids@ == grown(old(registry).dids@, r, did),
        final(registry).version == old(registry).version,
        final(registry).authority == old(registry).authority,
        old(registry).wf() ==> final(registry).wf(),
{
    let eth_check = authority_answer(direct_authority(did_account, eth_address.as_slice()));
    if eth_check != Some(true) {
        let r = authorize(eth_check);
        assert(register_did_for_eth_address_verdict(*registry, eth_check, None, did, data_len as int) == r);
        return r;
    }
    let signer_check = authority_answer(direct_authority(did_account, authority.as_slice()));
    let ghost before = *registry;
    let r = register_did_for_eth_address_with(registry, eth_check, signer_check, did, data_len);
    assert(register_did_for_eth_address_verdict(before, eth_check, signer_check, did, data_len as int) == r);
    r
}

/// Registers `did` in the key registry of `eth_address`, given the address recovered
/// from the signature (`None` when recovery failed) and the oracle's answer to whether
/// `eth_address` is a direct authority on `did`.
pub fn register_did_signed_by_eth_address_with(
    registry: &mut KeyRegistry,
    recovered_address: Option<[u8; 20]>,
    eth_address: [u8; 20],
    eth_check: Option<bool>,
    did: [u8; 32],
    data_len: usize,
) -> (r: Result<(), ErrorCode>)
    ensures
        r == register_did_signed_by_eth_address_verdict(
            *old(registry),
            address_view(recovered_address),
            eth_address,
            eth_check,
            did,
            data_len as int,
        ),
        final(registry).dids@ == grown(old(registry).dids@, r, did),
        final(registry).version == old(registry).version,
        final(registry).authority == old(registry).authority,
        old(registry).wf() ==> final(registry).wf(),
{
    check_eth_signer(recovered_address, eth_address.as_slice())?;
    authorize(eth_check)?;
    registry.add(did, data_len)
}

/// Registers `did` in the key registry of `eth_address`, whose storage is `data_len`
/// bytes, if `eth_signature` is a signature by `eth_address` of `authority_key`, the
/// initial authority key of the DID document `did_account`, and `eth_address` is a
/// direct authority on that document. Nothing in the signed message changes between
/// uses, so the same signature may be presented again.
pub fn register_did_signed_by_eth_address(
    registry: &mut KeyRegistry,
    data_len: usize,
    eth_address: [u8; 20],
    eth_signature: &Secp256k1RawSignature,
    did: [u8; 32],
    did_account: &AccountInfo,
    authority_key: [u8; 32],
) -> (r: Result<(), ErrorCode>)
    ensures
        exists|eth_check: Option<bool>|
            #[trigger] register_did_signed_by_eth_address_verdict(
                *old(registry),
                eth_recovered_address(authority_key@, *eth_signature),
                eth_address,
                eth_check,
                did,
                data_len as int,
            ) == r,
        final(registry).dids@ == grown(old(registry).dids@, r, did),
        final(registry).version == old(registry).version,
        final(registry).authority == old(registry).authority,
        old(registry).wf() ==> final(registry).wf(),
{
    let recovered_address = recover_address(authority_key.as_slice(), eth_signature);
    let signer = check_eth_signer(recovered_address, eth_address.as_slice());
    if signer.is_err() {
        assert(register_did_signed_by_eth_address_verdict(
            *registry,
            eth_recovered_address(authority_key@, *eth_signature),
            eth_address,
            None,
            did,
            data_len as int,
        ) == signer);
        return signer;
    }
    let eth_check = authority_answer(direct_authority(did_account, eth_address.as_slice()));
    let ghost before = *registry;
    let r = register_did_signed_by_eth_address_with(registry, recovered_address, eth_address, eth_check, did, data_len);
    assert(register_did_signed_by_eth_address_verdict(
        before,
        eth_recovered_address(authority_key@, *eth_signature),
        eth_address,
        eth_check,
        did,
        data_len as int,
    ) == r);
    r
}

/// Storage that a key registry must be given to hold `did_count` DIDs; the host
/// reallocates the record to exactly this size. Members are not touched.
pub fn resize_key_registry(did_count: u32) -> (r: u64)
    ensures
        r == account_size(did_count as int),
{
    account_len(did_count)
}

/// Whether `authority` may close the key registry: only its owner may.
pub fn close_key_registry(registry: &KeyRegistry, authority: [u8; 32]) -> (r: Result<(), ErrorCode>)
    ensures
        r == owner_verdict(registry.authority, authority),
{
    if keys_equal(&registry.authority, &authority) {
        Ok(())
    } else {
        Err(ErrorCode::NotAuthority)
    }
}

/// An empty controller registry for `did`, given the oracle's answer to whether the
/// creator is a direct authority on `did`.
pub fn create_controller_registry_with(did: [u8; 32], authority_check: Option<bool>) -> (r: Result<ControllerRegistry, ErrorCode>)
    ensures
        match r {
            Ok(registry) => {
                &&& authority_verdict(authority_check) is Ok
                &&& registry.version == 0
                &&& registry.did == did
                &&& registry.controlled_dids@ == Seq::<[u8; 32]>::empty()
                &&& registry.wf()
            },
            Err(e) => authority_verdict(authority_check) == Err::<(), ErrorCode>(e),
        },
{
    authorize(authority_check)?;
    Ok(ControllerRegistry { version: 0, did, controlled_dids: Vec::new() })
}

/// An empty controller registry for `did`, if `authority` is a direct authority on
/// the DID document `did_account`.
pub fn create_controller_registry(did: [u8; 32], authority: [u8; 32], did_account: &AccountInfo) -> (r: Result<ControllerRegistry, ErrorCode>)
    ensures
        match r {
            Ok(registry) => {
                &&& registry.version == 0
                &&& registry.did == did
                &&& registry.controlled_dids@ == Seq::<[u8; 32]>::empty()
                &&& registry.wf()
            },
            Err(e) => e == ErrorCode::DIDError || e == ErrorCode::NotAuthority,
        },
{
    let check = authority_answer(direct_authority(did_account, authority.as_slice()));
    create_controller_registry_with(did, check)
}

/// Registers `controlled_did` in a controller registry, given the oracle's answers
/// to whether the signer is a direct authority on the registry's DID, and whether
/// `controlled_did` lists the registry's DID as a controller.
pub fn register_controlled_did_with(
    registry: &mut ControllerRegistry,
    authority_check: Option<bool>,
    controller_check: Option<bool>,
    controlled_did: [u8; 32],
    data_len: usize,
) -> (r: Result<(), ErrorCode>)
    ensures
        r == register_controlled_did_verdict(*old(registry), authority_check, controller_check, controlled_did, data_len as int),
        final(registry).controlled_dids@ == grown(old(registry).controlled_dids@, r, controlled_did),
        final(registry).version == old(registry).version,
        final(registry).did == old(registry).did,
        old(registry).wf() ==> final(registry).wf(),
{
    authorize(authority_check)?;
    match controller_check {
        None => {
            return Err(ErrorCode::DIDError);
        },
        Some(false) => {
            return Err(ErrorCode::NotController);
        },
        Some(true) => {},
    }
    registry.add(controlled_did, data_len)
}

/// Registers `controlled_did` in a controller registry whose storage is `data_len`
/// bytes, if `authority` is a direct authority on the registry's DID (document
/// `did_account`) and the document of `controlled_did` (`controlled_did_account`)
/// lists the registry's DID as a controller.
pub fn register_controlled_did(
    registry: &mut ControllerRegistry,
    data_len: usize,
    authority: [u8; 32],
    did_account: &AccountInfo,
    controlled_did: [u8; 32],
    controlled_did_account: &AccountInfo,
) -> (r: Result<(), ErrorCode>)
    ensures
        exists|authority_check: Option<bool>, controller_check: Option<bool>|
            #[trigger] register_controlled_did_verdict(
                *old(registry),
                authority_check,
                controller_check,
                controlled_did,
                data_len as int,
            ) == r,
        final(registry).controlled_dids@ == grown(old(registry).controlled_dids@, r, controlled_did),
        final(registry).version == old(registry).version,
        final(registry).did == old(registry).did,
        old(registry).wf() ==> final(registry).wf(),
{
    let authority_check = authority_answer(direct_authority(did_account, authority.as_slice()));
    if authority_check != Some(true) {
        let r = authorize(authority_check);
        assert(register_controlled_did_verdict(*registry, authority_check, None, controlled_did, data_len as int) == r);
        return r;
    }
    let controller_check = controller_answer(did_account, &registry.did, controlled_did_account, &controlled_did);
    let ghost before = *registry;
    let r = register_controlled_did_with(registry, authority_check, controller_check, controlled_did, data_len);
    assert(register_controlled_did_verdict(before, authority_check, controller_check, controlled_did, data_len as int) == r);
    r
}

/// Unregisters `did` from a controller registry, given the oracle's answer to
/// whether the signer is a direct authority on the registry's DID. The controlled
/// DID's own document is not consulted.
pub fn remove_controlled_did_with(registry: &mut ControllerRegistry, authority_check: Option<bool>, did: [u8; 32]) -> (r: Result<(), ErrorCode>)
    ensures
        r == remove_controlled_did_verdict(*old(registry), authority_check, did),
        final(registry).controlled_dids@ == shrunk(old(registry).controlled_dids@, r, did),
        final(registry).version == old(registry).version,
        final(registry).did == old(registry).did,
        old(registry).wf() ==> final(registry).wf(),
{
    authorize(authority_check)?;
    registry.remove(&did)
}

/// Unregisters `did_to_remove` from a controller registry, if `authority` is a direct
/// authority on the registry's DID (document `did_account`).
pub fn remove_controlled_did(
    registry: &mut ControllerRegistry,
    authority: [u8; 32],
    did_account: &AccountInfo,
    did_to_remove: [u8; 32],
) -> (r: Result<(), ErrorCode>)
    ensures
        exists|authority_check: Option<bool>|
            #[trigger] remove_controlled_did_verdict(*old(registry), authority_check, did_to_remove) == r,
        final(registry).controlled_dids@ == shrunk(old(registry).controlled_dids@, r, did_to_remove),
        final(registry).version == old(registry).version,
        final(registry).did == old(registry).did,
        old(registry).wf() ==> final(registry).wf(),
{
    let authority_check = authority_answer(direct_authority(did_account, authority.as_slice()));
    let ghost before = *registry;
    let r = remove_controlled_did_with(registry, authority_check, did_to_remove);
    assert(remove_controlled_did_verdict(before, authority_check, did_to_remove) == r);
    r
}

/// Storage that a controller registry must be given to hold `did_count` DIDs; the
/// host reallocates the record to exactly this size. Members are not touched.
pub fn resize_controller_registry(did_count: u32) -> (r: u64)
    ensures
        r == account_size(did_count as int),
{
    account_len(did_count)
}

/// Whether `authority` may close `registry`, given the DID `did` whose document the
/// oracle consulted and the oracle's answer to whether `authority` is a direct authority
/// on it. Only an authority on the registry's own DID may close it.
pub fn close_controller_registry_with(registry: &ControllerRegistry, did: [u8; 32], authority_check: Option<bool>) -> (r: Result<(), ErrorCode>)
    ensures
        r == close_controller_registry_verdict(*registry, did, authority_check),
{
    if !keys_equal(&registry.did, &did) {
        return Err(ErrorCode::NotAuthority);
    }
    authorize(authority_check)
}

/// Whether `authority` may close `registry`: `did` must be the registry's own DID, and
/// `authority` a direct authority on its document `did_account`. The registry is not
/// changed; the host deallocates it on success.
pub fn close_controller_registry(
    registry: &ControllerRegistry,
    did: [u8; 32],
    authority: [u8; 32],
    did_account: &AccountInfo,
) -> (r: Result<(), ErrorCode>)
    ensures
        registry.did != did ==> r == Err::<(), ErrorCode>(ErrorCode::NotAuthority),
        exists|authority_check: Option<bool>|
            #[trigger] close_controller_registry_verdict(*registry, did, authority_check) == r,
{
    if !keys_equal(&registry.did, &did) {
        assert(close_controller_registry_verdict(*registry, did, None) == Err::<(), ErrorCode>(ErrorCode::NotAuthority));
        return Err(ErrorCode::NotAuthority);
    }
    let authority_check = authority_answer(direct_authority(did_account, authority.as_slice()));
    let r = close_controller_registry_with(registry, did, authority_check);
    assert(close_controller_registry_verdict(*registry, did, authority_check) == r);
    r
}

/// A controlled DID is registered only when the oracle answers both that the signer is
/// an authority on the registry's DID and that the controlled DID lists that DID as a
/// controller. A negative authority answer is refused as not an authority; a negative
/// controller answer, after a positive authority answer, as not a controller.
pub proof fn controlled_registration_needs_both_answers(
    registry: ControllerRegistry,
    authority_check: Option<bool>,
    controller_check: Option<bool>,
    controlled_did: [u8; 32],
    data_len: int,
)
    ensures
        register_controlled_did_verdict(registry, authority_check, controller_check, controlled_did, data_len) is Ok
            ==> authority_check == Some(true) && controller_check == Some(true),
        authority_check == Some(false) ==> register_controlled_did_verdict(
            registry,
            authority_check,
            controller_check,
            controlled_did,
            data_len,
        ) == Err::<(), ErrorCode>(ErrorCode::NotAuthority),
        authority_check == Some(true) && controller_check == Some(false) ==> register_controlled_did_verdict(
            registry,
            authority_check,
            controller_check,
            controlled_did,
            data_len,
        ) == Err::<(), ErrorCode>(ErrorCode::NotController),
{
}

} // verus!
