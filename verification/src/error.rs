//! Error taxonomy of the registry.
//!
//! Every failing operation aborts as a whole: no function here applies a
//! partial update and then fails.

use vstd::prelude::*;

verus! {

/// The reasons a registry operation can be rejected.
#[derive(Clone, Copy, Debug, PartialEq, Eq, Structural)]
pub enum RegistryError {
    /// A required signature (beneficiary, delegate or governance authority)
    /// is missing. Returned by the host layer's access checks.
    Unauthorized,
    /// New stake was attempted while the member still holds pool tokens from
    /// an earlier entity generation; it must withdraw fully first.
    StaleStakeNeedsWithdrawal,
    /// The proposed stake amount is insufficient to meet or maintain the
    /// entity's reward activation threshold.
    EntityNotActivated,
    /// A withdrawal or transfer amount exceeds the recorded stake-intent.
    InsufficientStakeIntentBalance,
    /// A presented delegate key does not match the member's delegate book.
    /// Returned by the host layer's access checks.
    InvalidMemberDelegateOwner,
    /// A presented token authority does not match the expected vault owner.
    /// Returned by the host layer's access checks.
    InvalidTokenAuthority,
    /// A presented vault authority does not match the expected derived
    /// signer. Returned by the host layer's access checks.
    InvalidVaultAuthority,
    /// An attempt to finish a withdrawal before its maturity timestamp.
    WithdrawalTimelockNotPassed,
    /// An attempt to initialize a record that is already initialized.
    AlreadyInitialized,
    /// An attempt to pay out a withdrawal receipt that was already consumed.
    AlreadyBurned,
    /// A record-lifecycle precondition of the host environment failed.
    /// Returned by the host layer's access checks.
    NotRentExempt,
    /// A record is owned by the wrong program. Returned by the host layer's
    /// access checks.
    InvalidAccountOwner,
    /// Arithmetic overflow or underflow in a basket or balance computation.
    /// Always fatal, never silently clamped or wrapped.
    CheckedFailure,
    /// A delegate payment leg exists but no delegate destination account was
    /// supplied at payout time.
    DelegateAccountsNotProvided,
}

} // verus!
