use anchor_lang::prelude::AccountInfo;
use anchor_lang::prelude::Pubkey;
use sol_did::integrations::is_authority;
use sol_did::state::DidAccount;
use vstd::prelude::*;

verus! {

#[verifier::external_type_specification]
#[verifier::external_body]
pub struct ExAccountInfo<'a>(AccountInfo<'a>);

#[verifier::external_type_specification]
#[verifier::external_body]
pub struct ExDidAccount(DidAccount);

#[verifier::external_type_specification]
#[verifier::external_body]
pub struct ExAnchorError(anchor_lang::error::Error);

/// Relies on `sol_did::integrations::is_authority`, with no controller chain and no
/// filters: whether `key` is a direct capability-invocation authority on the DID whose
/// document is `did_account` (for a generative DID: whether `key` derives that
/// account), or an error when the document cannot be read. The answer depends on what
/// the account holds, so nothing is promised of it.
/// For a generative DID the key is a seed of the account's address, and the address
/// derivation panics on a seed longer than 32 bytes: `requires` leaves those keys out.
/// The call also panics on a stored verification method with undefined flag bits, which
/// the DID program never writes, and when no bump seed gives a valid address, which
/// happens for no key of practical concern.
#[verifier::external_body]
pub(crate) fn direct_authority(did_account: &AccountInfo, key: &[u8]) -> (r: anchor_lang::Result<bool>)
    requires
        key@.len() <= 32,
{
    is_authority(did_account, None, &[], key, None, None)
}

/// What the authority oracle answered: `None` when it could not evaluate the DID.
pub fn authority_answer(r: anchor_lang::Result<bool>) -> (a: Option<bool>)
    ensures
        a == match r {
            Ok(b) => Some(b),
            Err(_) => None::<bool>,
        },
{
    match r {
        Ok(b) => Some(b),
        Err(_) => None,
    }
}

/// Relies on `sol_did::state::DidAccount::try_from`, for both documents, and on
/// `sol_did::state::DidAccount::is_controlled_by`, with a chain of one: whether the
/// document of `controlled_did` (in `controlled_did_account`) lists the initial
/// authority key of the document of `did` (in `did_account`) among its native
/// controllers; `None` when either document cannot be loaded. A document is the one
/// stored in the account, or, for a generative DID, the default document whose
/// initial authority is the identifier itself. Loaded documents always hold the
/// 32-byte initial key that the controller check reads. The answer depends on what the
/// accounts hold, so nothing is promised of it.
#[verifier::external_body]
pub(crate) fn controller_answer(
    did_account: &AccountInfo,
    did: &[u8; 32],
    controlled_did_account: &AccountInfo,
    controlled_did: &[u8; 32],
) -> (a: Option<bool>) {
    let controller = DidAccount::try_from(did_account, &Pubkey::new_from_array(*did), None).ok()?;
    let controlled = DidAccount::try_from(controlled_did_account, &Pubkey::new_from_array(*controlled_did), None).ok()?;
    Some(controlled.is_controlled_by(&[controller]))
}

} // verus!
