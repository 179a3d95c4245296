//! The error taxonomy of the core.

use vstd::prelude::*;

verus! {

/// Every failure the core can report. Errors are values; no operation
/// partially applies its effects when it fails.
///
/// - Validation: `NoRecipients`, `InvalidWeightTotal`, `TooManyRecipients`,
///   `InvalidGemCount`, `InvalidTransferAmount`, `InvalidPercentage` —
///   caller-supplied data out of range, detected before any state change.
/// - Arithmetic: `MathOverflow`, `DivisionByZero` — surfaced rather than
///   clamped, since silent clamping would mis-distribute funds.
/// - Authorization: `InvalidAuthority` — the caller is not the identity
///   bound to the record.
/// - State: `AlreadyMintedToday`, `DistributionAlreadyFinalized` — the
///   operation is well-formed but violates a lifecycle invariant.
/// - Funds: `InsufficientAmount` (a computed transfer rounds to zero),
///   `InsufficientFunds` (a transfer exceeds the available balance).
#[derive(Clone, Copy, Debug, PartialEq, Eq, Structural)]
pub enum PeerTokenError {
    NoRecipients,
    InvalidWeightTotal,
    TooManyRecipients,
    InvalidGemCount,
    InvalidTransferAmount,
    InvalidPercentage,
    MathOverflow,
    DivisionByZero,
    InvalidAuthority,
    AlreadyMintedToday,
    DistributionAlreadyFinalized,
    InsufficientAmount,
    InsufficientFunds,
}

} // verus!
