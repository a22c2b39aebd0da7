use vstd::prelude::*;

verus! {

/// Why an invocation was rejected.
#[derive(Clone, Copy, Debug, PartialEq, Eq, Structural)]
pub enum VaultError {
    /// Instruction or record bytes are malformed.
    DecodeError,
    /// Fewer storage slots were supplied than the invocation needs.
    MissingAccount,
    /// The depositor did not sign, or is not the owner of the record.
    Unauthorized,
    /// The transfer-authority reference is not the canonical one.
    InvalidProgramReference,
    /// The vault slot is not at the address derived for the depositor.
    InvalidAccountData,
    /// The amount of a deposit cannot be accepted.
    InvalidAmount,
    /// A withdrawal exceeds what the vault holds.
    InsufficientFunds,
    /// The host could not create and fund the vault slot.
    ProvisioningFailed,
}

} // verus!
