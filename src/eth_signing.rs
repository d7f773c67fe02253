use crate::error::ErrorCode;
use anchor_lang::solana_program::secp256k1_recover::{Secp256k1Pubkey, Secp256k1RecoverError};
use sol_did::utils::{convert_secp256k1pub_key_to_address, eth_verify_message};
use vstd::prelude::*;

verus! {

#[verifier::external_type_specification]
#[verifier::external_body]
pub struct ExSecp256k1RecoverError(Secp256k1RecoverError);

/// A recoverable secp256k1 signature: the 64-byte (r, s) pair and the recovery id.
#[derive(Clone, Copy, Debug)]
pub struct Secp256k1RawSignature {
    pub signature: [u8; 64],
    pub recovery_id: u8,
}

/// The uncompressed secp256k1 public key (64 bytes) recovered from `signature` and
/// `recovery_id` over the Ethereum personal-message hash of `message` followed by the
/// little-endian bytes of `nonce`; `None` when no key can be recovered.
pub uninterp spec fn eth_signer_key(message: Seq<u8>, nonce: u64, signature: Seq<u8>, recovery_id: u8) -> Option<Seq<u8>>;

/// The 20-byte Ethereum address of a 64-byte secp256k1 public key.
pub uninterp spec fn eth_address_of(public_key: Seq<u8>) -> Seq<u8>;

/// Relies on `sol_did::utils::eth_verify_message`: recovers the public key that signed
/// `message` with `nonce` appended, hashed as an Ethereum personal message, or fails
/// when the signature or recovery id is malformed.
#[verifier::external_body]
fn recover_signer_key(message: &[u8], nonce: u64, signature: [u8; 64], recovery_id: u8) -> (r: Result<[u8; 64], Secp256k1RecoverError>)
    ensures
        match r {
            Ok(k) => eth_signer_key(message@, nonce, signature@, recovery_id) == Some(k@),
            Err(_) => eth_signer_key(message@, nonce, signature@, recovery_id) is None,
        },
{
    eth_verify_message(message, nonce, signature, recovery_id).map(|k| k.0)
}

/// Relies on `sol_did::utils::convert_secp256k1pub_key_to_address`: the last 20 bytes of
/// the Keccak-256 hash of the public key.
#[verifier::external_body]
fn address_of_key(public_key: [u8; 64]) -> (r: [u8; 20])
    ensures
        r@ == eth_address_of(public_key@),
{
    convert_secp256k1pub_key_to_address(&Secp256k1Pubkey(public_key))
}

/// The address that signed `message` (with no nonce), or `None` when the signature
/// does not recover.
pub open spec fn eth_recovered_address(message: Seq<u8>, eth_signature: Secp256k1RawSignature) -> Option<Seq<u8>> {
    match eth_signer_key(message, 0, eth_signature.signature@, eth_signature.recovery_id) {
        Some(k) => Some(eth_address_of(k)),
        None => None,
    }
}

/// What checking a recovered address against the expected signer answers.
pub open spec fn signer_verdict(recovered: Option<Seq<u8>>, expected_address: Seq<u8>) -> Result<(), ErrorCode> {
    match recovered {
        None => Err(ErrorCode::InvalidEthSignature),
        Some(a) => if a == expected_address {
            Ok(())
        } else {
            Err(ErrorCode::WrongEthSigner)
        },
    }
}

/// The view of an optional address.
pub open spec fn address_view(a: Option<[u8; 20]>) -> Option<Seq<u8>> {
    match a {
        Some(x) => Some(x@),
        None => None,
    }
}

/// Byte-for-byte equality of two byte strings.
pub fn bytes_equal(a: &[u8], b: &[u8]) -> (r: bool)
    ensures
        r == (a@ == b@),
{
    if a.len() != b.len() {
        return false;
    }
    let mut i: usize = 0;
    while i < a.len()
        invariant
            0 <= i <= a.len(),
            a@.len() == b@.len(),
            forall|j: int| 0 <= j < i ==> a@[j] == b@[j],
        decreases a.len() - i,
    {
        if a[i] != b[i] {
            return false;
        }
        i = i + 1;
    }
    assert(a@ =~= b@);
    true
}

/// Checks the address recovered from a signature (`None` when recovery failed)
/// against the address that should have signed.
pub fn check_eth_signer(recovered_address: Option<[u8; 20]>, expected_address: &[u8]) -> (r: Result<(), ErrorCode>)
    ensures
        r == signer_verdict(address_view(recovered_address), expected_address@),
{
    match recovered_address {
        None => Err(ErrorCode::InvalidEthSignature),
        Some(address) => {
            if bytes_equal(address.as_slice(), expected_address) {
                Ok(())
            } else {
                Err(ErrorCode::WrongEthSigner)
            }
        },
    }
}

/// Recovers the address that signed `message` with `eth_signature`.
pub fn recover_address(message: &[u8], eth_signature: &Secp256k1RawSignature) -> (r: Option<[u8; 20]>)
    ensures
        address_view(r) == eth_recovered_address(message@, *eth_signature),
{
    match recover_signer_key(message, 0, eth_signature.signature, eth_signature.recovery_id) {
        Ok(public_key) => Some(address_of_key(public_key)),
        Err(_) => None,
    }
}

/// Checks that `eth_signature` signs `message` and was made by `expected_address`.
/// No nonce goes into the signed message, so a signature stays valid for as long as the
/// message does.
pub fn validate_eth_signature(message: &[u8], eth_signature: &Secp256k1RawSignature, expected_address: &[u8]) -> (r: Result<(), ErrorCode>)
    ensures
        r == signer_verdict(eth_recovered_address(message@, *eth_signature), expected_address@),
{
    check_eth_signer(recover_address(message, eth_signature), expected_address)
}

/// A signature is accepted exactly when the address it recovers to is the expected
/// signer. Any other signature, such as one with a corrupted bit that recovers to no
/// address or to another address, is refused as invalid or as from the wrong signer.
pub proof fn accepted_only_from_expected_signer(
    message: Seq<u8>,
    eth_signature: Secp256k1RawSignature,
    expected_address: Seq<u8>,
)
    ensures
        signer_verdict(eth_recovered_address(message, eth_signature), expected_address) is Ok
            <==> eth_recovered_address(message, eth_signature) == Some(expected_address),
        eth_recovered_address(message, eth_signature) != Some(expected_address) ==> {
            let v = signer_verdict(eth_recovered_address(message, eth_signature), expected_address);
            v == Err::<(), ErrorCode>(ErrorCode::InvalidEthSignature) || v == Err::<(), ErrorCode>(ErrorCode::WrongEthSigner)
        },
{
}

} // verus!
