//! The penalty for a rejected submission: the trader's counter of invalid
//! attempts goes up by one, and when it reaches the configured maximum a share
//! of the stake is forfeited and the counter starts again at zero.

use vstd::prelude::*;
use crate::accounts::{GlobalState, TraderAccount};
use crate::arith::{checked_percent, percent_fits, percent_of};
use crate::config::Config;
use crate::error::ErrorCode;

verus! {

/// Whether one more rejected submission brings the counter to the maximum.
pub open spec fn slash_fires(trader: TraderAccount, cfg: Config) -> bool {
    trader.invalid_proof_attempts + 1 >= cfg.max_invalid_proofs
}

/// The amount a slash takes from the trader's stake.
pub open spec fn slash_amount(trader: TraderAccount, cfg: Config) -> int {
    percent_of(trader.staked_amount as int, cfg.slash_percentage as int)
}

/// The arithmetic failure that keeps the penalty from being applied, if any:
/// the counter or the slash product overflows, or the slash is larger than
/// the stake or than the venue's total.
pub open spec fn penalty_error(trader: TraderAccount, global: GlobalState, cfg: Config) -> Option<
    ErrorCode,
> {
    if trader.invalid_proof_attempts == u8::MAX {
        Some(ErrorCode::ArithmeticOverflow)
    } else if !slash_fires(trader, cfg) {
        None
    } else if !percent_fits(trader.staked_amount as int, cfg.slash_percentage as int) {
        Some(ErrorCode::ArithmeticOverflow)
    } else if slash_amount(trader, cfg) > trader.staked_amount || slash_amount(trader, cfg)
        > global.total_staked {
        Some(ErrorCode::ArithmeticUnderflow)
    } else {
        None
    }
}

/// The trader's record after the penalty.
pub open spec fn penalized_trader(trader: TraderAccount, cfg: Config) -> TraderAccount {
    if slash_fires(trader, cfg) {
        TraderAccount {
            staked_amount: (trader.staked_amount - slash_amount(trader, cfg)) as u64,
            invalid_proof_attempts: 0,
            ..trader
        }
    } else {
        TraderAccount {
            invalid_proof_attempts: (trader.invalid_proof_attempts + 1) as u8,
            ..trader
        }
    }
}

/// The venue's totals after the penalty: a slash leaves the total stake by the
/// amount it takes from the trader.
pub open spec fn penalized_global(
    trader: TraderAccount,
    global: GlobalState,
    cfg: Config,
) -> GlobalState {
    if slash_fires(trader, cfg) {
        GlobalState {
            total_staked: (global.total_staked - slash_amount(trader, cfg)) as u64,
            ..global
        }
    } else {
        global
    }
}

/// Applies the penalty for a rejected submission and returns the failure to
/// report: `failure` when the penalty was applied, or the arithmetic error
/// that kept it from being applied, in which case nothing changes.
pub fn penalize(
    trader: &mut TraderAccount,
    global: &mut GlobalState,
    cfg: &Config,
    failure: ErrorCode,
) -> (reported: ErrorCode)
    requires
        cfg.wf(),
    ensures
        penalty_error(*old(trader), *old(global), *cfg) is Some ==> {
            &&& reported == penalty_error(*old(trader), *old(global), *cfg)->Some_0
            &&& *final(trader) == *old(trader)
            &&& *final(global) == *old(global)
        },
        penalty_error(*old(trader), *old(global), *cfg) is None ==> {
            &&& reported == failure
            &&& *final(trader) == penalized_trader(*old(trader), *cfg)
            &&& *final(global) == penalized_global(*old(trader), *old(global), *cfg)
        },
{
    let attempts: u8 = match trader.invalid_proof_attempts.checked_add(1) {
        Some(n) => n,
        None => { return ErrorCode::ArithmeticOverflow; },
    };
    if attempts >= cfg.max_invalid_proofs {
        let slash: u64 = match checked_percent(trader.staked_amount, cfg.slash_percentage) {
            Ok(amount) => amount,
            Err(e) => { return e; },
        };
        if slash > trader.staked_amount || slash > global.total_staked {
            return ErrorCode::ArithmeticUnderflow;
        }
        trader.staked_amount = trader.staked_amount - slash;
        global.total_staked = global.total_staked - slash;
        trader.invalid_proof_attempts = 0;
    } else {
        trader.invalid_proof_attempts = attempts;
    }
    failure
}

} // verus!
