//! The economic arithmetic: percentages of a balance, the speed multiplier and
//! the decaying priority score, each with the point at which it leaves the
//! `u64` domain.

use vstd::prelude::*;
use crate::error::ErrorCode;

verus! {

/// `pct` percent of `amount`, rounded down.
pub open spec fn percent_of(amount: int, pct: int) -> int {
    amount * pct / 100
}

/// Whether `pct` percent of `amount` can be computed inside `u64`: the product
/// `amount * pct` has to fit.
pub open spec fn percent_fits(amount: int, pct: int) -> bool {
    amount * pct <= u64::MAX
}

/// The speed multiplier that a reported latency earns: `1000 / (latency + 1)`,
/// rounded down.
pub open spec fn speed_multiplier_of(latency: int) -> int {
    1000int / (latency + 1)
}

/// Weight of the stake after `elapsed` time units: it falls linearly from
/// `decay_period` to zero and stays there.
pub open spec fn decay_factor(decay_period: int, elapsed: int) -> int {
    if elapsed < decay_period {
        decay_period - elapsed
    } else {
        0
    }
}

/// The stake weighted by its decay factor.
pub open spec fn base_priority(staked: int, decay_period: int, elapsed: int) -> int {
    staked * decay_factor(decay_period, elapsed) / decay_period
}

/// The bandwidth priority: decayed stake times speed multiplier, plus trade
/// volume.
pub open spec fn effective_priority(
    staked: int,
    speed_multiplier: int,
    trade_volume: int,
    decay_period: int,
    elapsed: int,
) -> int {
    base_priority(staked, decay_period, elapsed) * speed_multiplier + trade_volume
}

/// Computes `pct` percent of `amount`, or reports that the product
/// `amount * pct` overflows.
pub fn checked_percent(amount: u64, pct: u8) -> (res: Result<u64, ErrorCode>)
    ensures
        percent_fits(amount as int, pct as int) ==> res == Ok::<u64, ErrorCode>(
            percent_of(amount as int, pct as int) as u64,
        ),
        !percent_fits(amount as int, pct as int) ==> res == Err::<u64, ErrorCode>(
            ErrorCode::ArithmeticOverflow,
        ),
{
    match amount.checked_mul(pct as u64) {
        Some(product) => Ok(product / 100),
        None => Err(ErrorCode::ArithmeticOverflow),
    }
}

/// Computes the speed multiplier for a reported latency. The divisor
/// `latency + 1` is formed with wrap-around, so it is zero for the largest
/// latency only, and that is the one input refused.
pub fn checked_speed_multiplier(latency: u64) -> (res: Result<u64, ErrorCode>)
    ensures
        latency < u64::MAX ==> res == Ok::<u64, ErrorCode>(
            speed_multiplier_of(latency as int) as u64,
        ),
        latency == u64::MAX ==> res == Err::<u64, ErrorCode>(ErrorCode::DivisionByZero),
{
    let divisor: u64 = latency.wrapping_add(1);
    match 1000u64.checked_div(divisor) {
        Some(multiplier) => Ok(multiplier),
        None => Err(ErrorCode::DivisionByZero),
    }
}

} // verus!
