//! Error values reported by the ledger.

use vstd::prelude::*;

verus! {

/// Every failure the ledger can report. Record-codec failures use
/// `InvalidAccountData`; instruction-codec failures use `InvalidInstruction`;
/// the remaining variants name the precondition that a processor step found
/// violated.
#[derive(Clone, Copy, Debug, PartialEq, Eq, Structural)]
pub enum TokenError {
    /// Lamport balance below the host's rent-exemption threshold.
    NotRentExempt,
    /// The source balance (or delegated allowance) is smaller than the amount.
    InsufficientFunds,
    /// The referenced asset class is not an initialized mint record.
    InvalidMint,
    /// Account is not associated with this mint.
    MintMismatch,
    /// The presented owner key does not match the record's owner.
    OwnerMismatch,
    /// The mint authority is absent, so the supply is permanently fixed.
    FixedSupply,
    /// The record is already initialized.
    AlreadyInUse,
    /// The number of provided signers is outside the allowed range.
    InvalidNumberOfProvidedSigners,
    /// The number of required signers is outside the allowed range.
    InvalidNumberOfRequiredSigners,
    /// The record is not yet initialized.
    UninitializedState,
    /// The instruction does not support native-wrapper accounts.
    NativeNotSupported,
    /// A non-native account can only be closed when its balance is zero.
    NonNativeHasBalance,
    /// The instruction bytes do not decode.
    InvalidInstruction,
    /// The account state does not admit the requested transition.
    InvalidState,
    /// A checked arithmetic operation overflowed or underflowed.
    Overflow,
    /// The record kind does not carry the named authority.
    AuthorityTypeNotSupported,
    /// The freeze authority is absent, so accounts of this mint cannot freeze.
    MintCannotFreeze,
    /// The account is frozen.
    AccountFrozen,
    /// The supplied decimals differ from the mint's decimals.
    MintDecimalsMismatch,
    /// A record buffer has the wrong size or an invalid field tag.
    InvalidAccountData,
    /// The target buffer size names no known record kind.
    InvalidArgument,
    /// A required signature is missing or the quorum is not met.
    MissingRequiredSignature,
    /// The instruction was given fewer account handles than it consumes.
    NotEnoughAccountKeys,
}

} // verus!
