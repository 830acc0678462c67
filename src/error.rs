use vstd::prelude::*;

verus! {

/// Why an operation on the store was refused. Every refusal leaves the ledger
/// as it was.
#[derive(Clone, Copy, Debug, PartialEq, Eq, Structural)]
pub enum StoreError {
    /// The supplied timestamp is not strictly positive.
    InvalidTimestamp,
    /// No store record exists at the supplied address, or the address is not
    /// the store's derived address.
    AccountNotFound,
    /// A record already exists at the store's derived address.
    AccountAlreadyInUse,
    /// The funding party cannot pay for the record's storage.
    InsufficientFunds,
    /// The authorizing party did not sign the request.
    MissingSignature,
    /// The address supplied for creation is not the store's derived address.
    AddressMismatch,
    /// No bump seed yields a valid derived address for this program.
    NoProgramAddress,
    /// Account data is too short to hold a discriminator.
    DiscriminatorNotFound,
    /// Account data does not start with the store record's discriminator.
    DiscriminatorMismatch,
    /// Account data ends before the record's fields do.
    DidNotDeserialize,
    /// The ledger clock could not be read; carries the host's error code.
    ClockUnavailable(u64),
}

} // verus!
