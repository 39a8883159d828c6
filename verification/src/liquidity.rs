//! Deposits of liquidity providers.

use vstd::prelude::*;
use crate::accounts::{GlobalState, LiquidityAccount};
use crate::arith::{checked_percent, percent_fits, percent_of};
use crate::config::Config;
use crate::error::ErrorCode;

verus! {

/// The accounts that a deposit touches.
#[derive(Clone, Copy, Debug, PartialEq, Eq)]
pub struct ProvideLiquidity {
    pub lp_account: LiquidityAccount,
    pub global_state: GlobalState,
}

/// Whether the provider's lock window is still running at `now`.
pub open spec fn liquidity_locked(lp: LiquidityAccount, cfg: Config, now: i64) -> bool {
    now < lp.lock_timestamp + cfg.liquidity_lock_period
}

/// Decides whether the provider's lock window is still running at `now`.
pub fn is_liquidity_locked(lp: &LiquidityAccount, cfg: &Config, now: i64) -> (locked: bool)
    ensures
        locked == liquidity_locked(*lp, *cfg, now),
{
    let unlock: i128 = lp.lock_timestamp as i128 + cfg.liquidity_lock_period as i128;
    (now as i128) < unlock
}

/// The bonus on a deposit of `amount`: the priority-pool percentage for a
/// provider of a priority pool, nothing otherwise.
pub open spec fn bonus_amount(lp: LiquidityAccount, cfg: Config, amount: u64) -> int {
    if lp.is_priority_pool {
        percent_of(amount as int, cfg.priority_pool_bonus as int)
    } else {
        0
    }
}

/// Whether a deposit can be booked without any sum or product leaving `u64`.
pub open spec fn deposit_fits(
    ctx: ProvideLiquidity,
    cfg: Config,
    amount: u64,
    trade_volume: u64,
) -> bool {
    let lp = ctx.lp_account;
    let bonus = bonus_amount(lp, cfg, amount);
    &&& lp.is_priority_pool ==> percent_fits(amount as int, cfg.priority_pool_bonus as int)
    &&& amount + bonus <= u64::MAX
    &&& lp.liquidity_provided + amount + bonus <= u64::MAX
    &&& lp.reward_balance + bonus <= u64::MAX
    &&& lp.trade_volume + trade_volume <= u64::MAX
    &&& ctx.global_state.total_liquidity + amount + bonus <= u64::MAX
}

/// The outcome of a deposit at time `now`.
pub open spec fn provide_liquidity_result(
    ctx: ProvideLiquidity,
    cfg: Config,
    amount: u64,
    trade_volume: u64,
    now: i64,
) -> Result<(), ErrorCode> {
    if liquidity_locked(ctx.lp_account, cfg, now) {
        Err(ErrorCode::LiquidityLockNotElapsed)
    } else if !deposit_fits(ctx, cfg, amount, trade_volume) {
        Err(ErrorCode::ArithmeticOverflow)
    } else {
        Ok(())
    }
}

/// The accounts after a deposit was booked.
pub open spec fn liquidity_deposited(
    ctx: ProvideLiquidity,
    cfg: Config,
    amount: u64,
    trade_volume: u64,
) -> ProvideLiquidity {
    let lp = ctx.lp_account;
    let bonus = bonus_amount(lp, cfg, amount);
    ProvideLiquidity {
        lp_account: LiquidityAccount {
            liquidity_provided: (lp.liquidity_provided + amount + bonus) as u64,
            reward_balance: (lp.reward_balance + bonus) as u64,
            trade_volume: (lp.trade_volume + trade_volume) as u64,
            ..lp
        },
        global_state: GlobalState {
            total_liquidity: (ctx.global_state.total_liquidity + amount + bonus) as u64,
            ..ctx.global_state
        },
    }
}

/// The accounts after an attempt to deposit at time `now`: credited on
/// success, unchanged on a refusal.
pub open spec fn provide_liquidity_post(
    ctx: ProvideLiquidity,
    cfg: Config,
    amount: u64,
    trade_volume: u64,
    now: i64,
) -> ProvideLiquidity {
    if provide_liquidity_result(ctx, cfg, amount, trade_volume, now) is Ok {
        liquidity_deposited(ctx, cfg, amount, trade_volume)
    } else {
        ctx
    }
}

/// Books a deposit of `amount`, which the caller has moved into liquidity
/// custody.
///
/// The deposit and its bonus are credited to the provider's liquidity and to
/// the venue's total, the bonus to the reward balance as well, and
/// `trade_volume` is added to the provider's volume. Refused with
/// `LiquidityLockNotElapsed` while `now` is before the provider's lock
/// timestamp plus the lock period, and with `ArithmeticOverflow` when a sum or
/// product leaves `u64`. A refusal changes nothing. The lock timestamp is
/// never moved.
pub fn provide_liquidity(
    ctx: &mut ProvideLiquidity,
    cfg: &Config,
    amount: u64,
    trade_volume: u64,
    now: i64,
) -> (res: Result<(), ErrorCode>)
    requires
        cfg.wf(),
    ensures
        res == provide_liquidity_result(*old(ctx), *cfg, amount, trade_volume, now),
        *final(ctx) == provide_liquidity_post(*old(ctx), *cfg, amount, trade_volume, now),
{
    if is_liquidity_locked(&ctx.lp_account, cfg, now) {
        return Err(ErrorCode::LiquidityLockNotElapsed);
    }
    let bonus: u64 = if ctx.lp_account.is_priority_pool {
        match checked_percent(amount, cfg.priority_pool_bonus) {
            Ok(part) => part,
            Err(e) => { return Err(e); },
        }
    } else {
        0
    };
    let deposit: u64 = match amount.checked_add(bonus) {
        Some(sum) => sum,
        None => { return Err(ErrorCode::ArithmeticOverflow); },
    };
    let provided: u64 = match ctx.lp_account.liquidity_provided.checked_add(deposit) {
        Some(sum) => sum,
        None => { return Err(ErrorCode::ArithmeticOverflow); },
    };
    let rewards: u64 = match ctx.lp_account.reward_balance.checked_add(bonus) {
        Some(sum) => sum,
        None => { return Err(ErrorCode::ArithmeticOverflow); },
    };
    let volume: u64 = match ctx.lp_account.trade_volume.checked_add(trade_volume) {
        Some(sum) => sum,
        None => { return Err(ErrorCode::ArithmeticOverflow); },
    };
    let total: u64 = match ctx.global_state.total_liquidity.checked_add(deposit) {
        Some(sum) => sum,
        None => { return Err(ErrorCode::ArithmeticOverflow); },
    };
    ctx.lp_account.liquidity_provided = provided;
    ctx.lp_account.reward_balance = rewards;
    ctx.lp_account.trade_volume = volume;
    ctx.global_state.total_liquidity = total;
    Ok(())
}

} // verus!
