//! Failures that an operation of the engine can report.

use vstd::prelude::*;

verus! {

/// Why an operation was refused.
#[derive(Clone, Copy, Debug, PartialEq, Eq)]
pub enum ErrorCode {
    /// A sum or product does not fit its integer domain.
    ArithmeticOverflow,
    /// A deduction is larger than the balance it is taken from.
    ArithmeticUnderflow,
    /// A divisor was computed as zero.
    DivisionByZero,
    /// The proof validity oracle rejected a submitted proof.
    InvalidProof,
    /// The range proof was rejected, or the revealed order does not match
    /// the stored commitment.
    InvalidReveal,
    /// The trader has not been verified.
    TraderNotVerified,
    /// The trader's proof is past its expiry.
    ProofExpired,
    /// The stake is still inside its lockup period.
    LockupPeriodNotElapsed,
    /// More was asked for than is staked.
    InsufficientStake,
    /// The reveal came before the reveal delay had passed.
    RevealTooEarly,
    /// The provider's liquidity is still inside its lock period.
    LiquidityLockNotElapsed,
}

} // verus!
