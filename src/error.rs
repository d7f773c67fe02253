use vstd::prelude::*;

verus! {

/// Why a registry operation was refused. Every failure leaves the registry unchanged.
#[derive(PartialEq, Eq, Structural, Debug, Clone, Copy)]
pub enum ErrorCode {
    /// The DID document could not be evaluated.
    DIDError,
    /// The key is not an authority on the DID.
    NotAuthority,
    /// The registry's DID is not a controller of the DID being added.
    NotController,
    /// The DID is already registered.
    DIDRegistered,
    /// The DID to remove is not registered.
    DIDNotRegistered,
    /// The Ethereum signature could not be recovered.
    InvalidEthSignature,
    /// The Ethereum signature was made by another address.
    WrongEthSigner,
    /// The registry's storage cannot hold another member; it must be resized first.
    RegistryFull,
}

/// The first failure of two checks made in turn.
pub open spec fn first_failure(a: Result<(), ErrorCode>, b: Result<(), ErrorCode>) -> Result<(), ErrorCode> {
    if a is Err {
        a
    } else {
        b
    }
}

} // verus!
