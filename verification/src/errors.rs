use vstd::prelude::*;

verus! {

/// Everything a vault operation can fail with.
///
/// Every error is detected before the ledger mutates, so a failed
/// operation always leaves the ledger exactly as it found it.
#[derive(Clone, Copy, Debug, PartialEq, Eq, Structural)]
pub enum VaultError {
    /// A deposit or withdrawal of zero units.
    InvalidAmount,
    /// Deposit or withdrawal attempted while the vault is paused.
    VaultPaused,
    /// An admin-only operation invoked by a caller other than the admin.
    Unauthorized,
    /// A redemption of more shares than the caller holds.
    InsufficientShares,
    /// A running total would exceed its 64-bit bound, or a computed
    /// share quantity cannot be represented in 64 bits.
    Overflow,
    /// A running total would drop below zero.
    Underflow,
    /// The computed counter-quantity is zero despite a positive input;
    /// rejecting such dust keeps value from leaking in either direction.
    RoundingToZero,
    /// A withdrawal against a pool with no shares outstanding.
    EmptyVault,
    /// Initialization attempted against a vault key that already has a ledger.
    AlreadyInitialized,
    /// The zero-symmetry invariant would be broken by an update; this is
    /// defense in depth and unreachable through the exchange engine.
    InvariantViolation,
}

} // verus!
