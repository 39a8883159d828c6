//! The bandwidth priority of a verified trader: a score that decays with the
//! time since the last accepted proof.

use vstd::prelude::*;
use vstd::arithmetic::div_mod::lemma_div_is_ordered;
use crate::accounts::TraderAccount;
use crate::arith::{base_priority, decay_factor, effective_priority};
use crate::config::Config;
use crate::error::ErrorCode;

verus! {

/// The account that the priority query reads.
#[derive(Clone, Copy, Debug, PartialEq, Eq)]
pub struct AllocateBandwidth {
    pub trader_account: TraderAccount,
}

/// Time since the trader's last accepted proof.
pub open spec fn elapsed_since_proof(trader: TraderAccount, now: i64) -> int {
    now - trader.last_proof_update
}

/// The trader's bandwidth priority at time `now`.
pub open spec fn priority_at(trader: TraderAccount, cfg: Config, now: i64) -> int {
    effective_priority(
        trader.staked_amount as int,
        trader.speed_multiplier as int,
        trader.trade_volume as int,
        cfg.decay_period as int,
        elapsed_since_proof(trader, now),
    )
}

/// Whether every product and sum on the way to the priority stays inside
/// `u64`.
pub open spec fn priority_fits(trader: TraderAccount, cfg: Config, now: i64) -> bool {
    let period = cfg.decay_period as int;
    let elapsed = elapsed_since_proof(trader, now);
    &&& trader.staked_amount * decay_factor(period, elapsed) <= u64::MAX
    &&& base_priority(trader.staked_amount as int, period, elapsed) * trader.speed_multiplier
        <= u64::MAX
    &&& priority_at(trader, cfg, now) <= u64::MAX
}

/// The outcome of the priority query.
pub open spec fn allocate_bandwidth_result(
    ctx: AllocateBandwidth,
    cfg: Config,
    now: i64,
) -> Result<u64, ErrorCode> {
    let trader = ctx.trader_account;
    if now > trader.proof_expiry {
        Err(ErrorCode::ProofExpired)
    } else if !trader.is_verified {
        Err(ErrorCode::TraderNotVerified)
    } else if !priority_fits(trader, cfg, now) {
        Err(ErrorCode::ArithmeticOverflow)
    } else {
        Ok(priority_at(trader, cfg, now) as u64)
    }
}

/// Returns the trader's bandwidth priority at time `now`.
///
/// Refused with `ProofExpired` once `now` is past the proof's expiry, with
/// `TraderNotVerified` for a trader who is not verified, and with
/// `ArithmeticOverflow` when the score leaves `u64`. Nothing is changed.
pub fn allocate_bandwidth(ctx: &AllocateBandwidth, cfg: &Config, now: i64) -> (res: Result<
    u64,
    ErrorCode,
>)
    requires
        cfg.wf(),
    ensures
        res == allocate_bandwidth_result(*ctx, *cfg, now),
{
    let trader: &TraderAccount = &ctx.trader_account;
    if now > trader.proof_expiry {
        return Err(ErrorCode::ProofExpired);
    }
    if !trader.is_verified {
        return Err(ErrorCode::TraderNotVerified);
    }
    let period: i128 = cfg.decay_period as i128;
    let elapsed: i128 = now as i128 - trader.last_proof_update as i128;
    let decay: i128 = if elapsed < period {
        period - elapsed
    } else {
        0
    };
    assert(decay == decay_factor(cfg.decay_period as int, elapsed_since_proof(*trader, now)));
    let weighted: u64 = if trader.staked_amount == 0 {
        assert(trader.staked_amount * decay == 0) by (nonlinear_arith)
            requires
                trader.staked_amount == 0,
        ;
        0
    } else if decay > u64::MAX as i128 {
        assert(trader.staked_amount * decay > u64::MAX) by (nonlinear_arith)
            requires
                trader.staked_amount >= 1,
                decay > u64::MAX,
        ;
        return Err(ErrorCode::ArithmeticOverflow);
    } else {
        match trader.staked_amount.checked_mul(decay as u64) {
            Some(product) => product,
            None => { return Err(ErrorCode::ArithmeticOverflow); },
        }
    };
    assert(weighted == trader.staked_amount * decay);
    let base: u64 = weighted / (cfg.decay_period as u64);
    assert(base == base_priority(
        trader.staked_amount as int,
        cfg.decay_period as int,
        elapsed_since_proof(*trader, now),
    ));
    let scaled: u64 = match base.checked_mul(trader.speed_multiplier) {
        Some(product) => product,
        None => { return Err(ErrorCode::ArithmeticOverflow); },
    };
    match scaled.checked_add(trader.trade_volume) {
        Some(priority) => Ok(priority),
        None => Err(ErrorCode::ArithmeticOverflow),
    }
}

/// For a fixed stake, speed multiplier and trade volume the priority never
/// rises as time passes, and once a whole decay period has passed since the
/// last accepted proof it is exactly the trade volume.
pub proof fn lemma_priority_decays(trader: TraderAccount, cfg: Config, earlier: i64, later: i64)
    requires
        cfg.wf(),
        earlier <= later,
    ensures
        priority_at(trader, cfg, later) <= priority_at(trader, cfg, earlier),
        elapsed_since_proof(trader, later) >= cfg.decay_period ==> priority_at(trader, cfg, later)
            == trader.trade_volume,
{
    let period = cfg.decay_period as int;
    let staked = trader.staked_amount as int;
    let speed = trader.speed_multiplier as int;
    let before = decay_factor(period, elapsed_since_proof(trader, earlier));
    let after = decay_factor(period, elapsed_since_proof(trader, later));
    assert(0 <= after <= before);
    assert(staked * after <= staked * before) by (nonlinear_arith)
        requires
            0 <= staked,
            after <= before,
    ;
    lemma_div_is_ordered(staked * after, staked * before, period);
    let base_before = base_priority(staked, period, elapsed_since_proof(trader, earlier));
    let base_after = base_priority(staked, period, elapsed_since_proof(trader, later));
    assert(base_after <= base_before);
    assert(base_after * speed <= base_before * speed) by (nonlinear_arith)
        requires
            0 <= speed,
            base_after <= base_before,
    ;
    if elapsed_since_proof(trader, later) >= cfg.decay_period {
        assert(after == 0);
        assert(staked * after == 0) by (nonlinear_arith)
            requires
                after == 0,
        ;
        assert(base_after == 0);
        assert(base_after * speed == 0) by (nonlinear_arith)
            requires
                base_after == 0,
        ;
    }
}

} // verus!
