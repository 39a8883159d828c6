//! Initialising the venue, staking and unstaking.

use vstd::prelude::*;
use crate::accounts::{GlobalState, TraderAccount};
use crate::config::Config;
use crate::error::ErrorCode;

verus! {

/// The account that initialisation writes.
#[derive(Clone, Copy, Debug, PartialEq, Eq)]
pub struct Initialize {
    pub global_state: GlobalState,
}

/// The accounts that staking touches.
#[derive(Clone, Copy, Debug, PartialEq, Eq)]
pub struct Stake {
    pub trader_account: TraderAccount,
    pub global_state: GlobalState,
}

/// The accounts that unstaking touches.
#[derive(Clone, Copy, Debug, PartialEq, Eq)]
pub struct Unstake {
    pub trader_account: TraderAccount,
    pub global_state: GlobalState,
}

/// Sets the administrator and zeroes both totals.
pub fn initialize(ctx: &mut Initialize, admin: [u8; 32]) -> (res: Result<(), ErrorCode>)
    ensures
        res is Ok,
        final(ctx).global_state == (GlobalState { admin, total_staked: 0, total_liquidity: 0 }),
{
    ctx.global_state.admin = admin;
    ctx.global_state.total_staked = 0;
    ctx.global_state.total_liquidity = 0;
    Ok(())
}

/// Whether `amount` can be added to both the trader's stake and the venue's
/// total without leaving `u64`.
pub open spec fn stake_fits(ctx: Stake, amount: u64) -> bool {
    &&& ctx.trader_account.staked_amount + amount <= u64::MAX
    &&& ctx.global_state.total_staked + amount <= u64::MAX
}

/// The accounts after `amount` was staked at time `now`.
pub open spec fn staked(ctx: Stake, amount: u64, now: i64) -> Stake {
    Stake {
        trader_account: TraderAccount {
            staked_amount: (ctx.trader_account.staked_amount + amount) as u64,
            last_stake_timestamp: now,
            ..ctx.trader_account
        },
        global_state: GlobalState {
            total_staked: (ctx.global_state.total_staked + amount) as u64,
            ..ctx.global_state
        },
    }
}

/// The outcome of staking `amount`.
pub open spec fn stake_result(ctx: Stake, amount: u64) -> Result<(), ErrorCode> {
    if stake_fits(ctx, amount) {
        Ok(())
    } else {
        Err(ErrorCode::ArithmeticOverflow)
    }
}

/// The accounts after an attempt to stake `amount` at time `now`: credited
/// when the sums fit, unchanged otherwise.
pub open spec fn stake_post(ctx: Stake, amount: u64, now: i64) -> Stake {
    if stake_fits(ctx, amount) {
        staked(ctx, amount, now)
    } else {
        ctx
    }
}

/// Credits `amount`, which the caller has moved into stake custody, to the
/// trader's stake and to the venue's total, and restarts the lockup at `now`.
/// Fails with `ArithmeticOverflow`, changing nothing, when either sum leaves
/// `u64`.
pub fn stake(ctx: &mut Stake, amount: u64, now: i64) -> (res: Result<(), ErrorCode>)
    ensures
        res == stake_result(*old(ctx), amount),
        *final(ctx) == stake_post(*old(ctx), amount, now),
{
    let new_stake: u64 = match ctx.trader_account.staked_amount.checked_add(amount) {
        Some(sum) => sum,
        None => { return Err(ErrorCode::ArithmeticOverflow); },
    };
    let new_total: u64 = match ctx.global_state.total_staked.checked_add(amount) {
        Some(sum) => sum,
        None => { return Err(ErrorCode::ArithmeticOverflow); },
    };
    ctx.trader_account.staked_amount = new_stake;
    ctx.trader_account.last_stake_timestamp = now;
    ctx.global_state.total_staked = new_total;
    Ok(())
}

/// Whether the lockup that began with the trader's last stake is still
/// running at `now`.
pub open spec fn in_lockup(trader: TraderAccount, cfg: Config, now: i64) -> bool {
    now < trader.last_stake_timestamp + cfg.lockup_period
}

/// Decides whether the lockup is still running at `now`.
pub fn is_in_lockup(trader: &TraderAccount, cfg: &Config, now: i64) -> (locked: bool)
    ensures
        locked == in_lockup(*trader, *cfg, now),
{
    let unlock: i128 = trader.last_stake_timestamp as i128 + cfg.lockup_period as i128;
    (now as i128) < unlock
}

/// The outcome of asking for `amount` back at time `now`.
pub open spec fn unstake_result(ctx: Unstake, cfg: Config, amount: u64, now: i64) -> Result<
    (),
    ErrorCode,
> {
    if in_lockup(ctx.trader_account, cfg, now) {
        Err(ErrorCode::LockupPeriodNotElapsed)
    } else if amount > ctx.trader_account.staked_amount {
        Err(ErrorCode::InsufficientStake)
    } else if amount > ctx.global_state.total_staked {
        Err(ErrorCode::ArithmeticUnderflow)
    } else {
        Ok(())
    }
}

/// The accounts after `amount` was unstaked.
pub open spec fn unstaked(ctx: Unstake, amount: u64) -> Unstake {
    Unstake {
        trader_account: TraderAccount {
            staked_amount: (ctx.trader_account.staked_amount - amount) as u64,
            ..ctx.trader_account
        },
        global_state: GlobalState {
            total_staked: (ctx.global_state.total_staked - amount) as u64,
            ..ctx.global_state
        },
    }
}

/// The accounts after an attempt to unstake `amount` at time `now`: debited
/// on success, unchanged on a refusal.
pub open spec fn unstake_post(ctx: Unstake, cfg: Config, amount: u64, now: i64) -> Unstake {
    if unstake_result(ctx, cfg, amount, now) is Ok {
        unstaked(ctx, amount)
    } else {
        ctx
    }
}

/// Releases `amount` from the trader's stake and from the venue's total, for
/// the caller to move out of stake custody.
///
/// Refused with `LockupPeriodNotElapsed` while `now` is before the last stake
/// plus the lockup period, with `InsufficientStake` when more is asked for
/// than is staked, and with `ArithmeticUnderflow` when the venue's total is
/// smaller than the amount. A refusal changes nothing.
pub fn unstake(ctx: &mut Unstake, cfg: &Config, amount: u64, now: i64) -> (res: Result<
    (),
    ErrorCode,
>)
    requires
        cfg.wf(),
    ensures
        res == unstake_result(*old(ctx), *cfg, amount, now),
        *final(ctx) == unstake_post(*old(ctx), *cfg, amount, now),
        in_lockup(old(ctx).trader_account, *cfg, now) ==> res == Err::<(), ErrorCode>(
            ErrorCode::LockupPeriodNotElapsed,
        ),
{
    if is_in_lockup(&ctx.trader_account, cfg, now) {
        return Err(ErrorCode::LockupPeriodNotElapsed);
    }
    if ctx.trader_account.staked_amount < amount {
        return Err(ErrorCode::InsufficientStake);
    }
    if ctx.global_state.total_staked < amount {
        return Err(ErrorCode::ArithmeticUnderflow);
    }
    ctx.trader_account.staked_amount = ctx.trader_account.staked_amount - amount;
    ctx.global_state.total_staked = ctx.global_state.total_staked - amount;
    Ok(())
}

/// The lockup is a gate in time: before the last stake plus the lockup period
/// unstaking is refused with `LockupPeriodNotElapsed`, and from exactly that
/// time on an amount that the stake and the total cover is released.
pub proof fn lemma_unstake_time_gate(ctx: Unstake, cfg: Config, amount: u64, now: i64)
    requires
        cfg.wf(),
    ensures
        now < ctx.trader_account.last_stake_timestamp + cfg.lockup_period ==> unstake_result(
            ctx,
            cfg,
            amount,
            now,
        ) == Err::<(), ErrorCode>(ErrorCode::LockupPeriodNotElapsed),
        now >= ctx.trader_account.last_stake_timestamp + cfg.lockup_period && amount
            <= ctx.trader_account.staked_amount && amount <= ctx.global_state.total_staked
            ==> unstake_result(ctx, cfg, amount, now) is Ok,
{
}

} // verus!
