//! The venue as a whole: the totals together with every trader's and every
//! provider's record, the operations as steps between such states, and what
//! holds of every state that the operations can reach.

use vstd::prelude::*;
use crate::accounts::{GlobalState, LiquidityAccount, TraderAccount};
use crate::config::Config;
use crate::error::ErrorCode;
use crate::liquidity::{provide_liquidity_post, ProvideLiquidity};
use crate::penalty::slash_fires;
use crate::staking::{stake_post, unstake_post, Stake, Unstake};
use crate::verification::{
    batch_stake_and_verify_post,
    batch_stake_and_verify_result,
    reveal_trade_post,
    verify_priority_post,
    BatchStakeAndVerify,
    RevealTrade,
    VerifyPriority,
};

verus! {

/// A state of the venue.
pub struct Venue {
    pub global: GlobalState,
    pub traders: Seq<TraderAccount>,
    pub providers: Seq<LiquidityAccount>,
}

/// One step of the venue: an account is opened, or an operation runs on the
/// trader or provider at the given position. Proofs and orders appear as the
/// oracle's verdict on them.
pub enum Operation {
    OpenTrader { account: TraderAccount },
    OpenProvider { provider_account: LiquidityAccount },
    Stake { trader: int, amount: u64, now: i64 },
    VerifyPriority {
        trader: int,
        verdict: Option<[u8; 32]>,
        commitment: [u8; 32],
        latency: u64,
        now: i64,
    },
    BatchStakeAndVerify {
        trader: int,
        amount: u64,
        verdict: Option<[u8; 32]>,
        commitment: [u8; 32],
        latency: u64,
        now: i64,
    },
    Unstake { trader: int, amount: u64, now: i64 },
    RevealTrade { trader: int, revealed: Option<[u8; 32]>, now: i64 },
    ProvideLiquidity { provider: int, amount: u64, trade_volume: u64, now: i64 },
}

/// Sum of the stakes of all traders.
pub open spec fn total_stake(traders: Seq<TraderAccount>) -> int
    decreases traders.len(),
{
    if traders.len() == 0 {
        0
    } else {
        total_stake(traders.drop_last()) + traders.last().staked_amount
    }
}

/// Sum of the liquidity of all providers.
pub open spec fn total_provided(providers: Seq<LiquidityAccount>) -> int
    decreases providers.len(),
{
    if providers.len() == 0 {
        0
    } else {
        total_provided(providers.drop_last()) + providers.last().liquidity_provided
    }
}

/// The totals mirror the accounts.
pub open spec fn consistent(venue: Venue) -> bool {
    &&& venue.global.total_staked == total_stake(venue.traders)
    &&& venue.global.total_liquidity == total_provided(venue.providers)
}

/// Every trader's counter of invalid attempts is below the maximum.
pub open spec fn counters_bounded(venue: Venue, cfg: Config) -> bool {
    forall|i: int|
        0 <= i < venue.traders.len() ==> (#[trigger] venue.traders[i]).invalid_proof_attempts
            <= cfg.max_invalid_proofs - 1
}

/// The venue right after initialisation: zero totals and no accounts.
pub open spec fn opened(admin: [u8; 32]) -> Venue {
    Venue {
        global: GlobalState { admin, total_staked: 0, total_liquidity: 0 },
        traders: Seq::empty(),
        providers: Seq::empty(),
    }
}

/// A trader's record as it is opened: nothing staked, no invalid attempts.
pub open spec fn fresh_trader(account: TraderAccount) -> bool {
    account.staked_amount == 0 && account.invalid_proof_attempts == 0
}

/// A provider's record as it is opened: no liquidity.
pub open spec fn fresh_provider(account: LiquidityAccount) -> bool {
    account.liquidity_provided == 0
}

/// Whether the operation can run on the venue: a record that is opened is
/// fresh, and the position of the trader or provider exists.
pub open spec fn applicable(venue: Venue, op: Operation) -> bool {
    match op {
        Operation::OpenTrader { account } => fresh_trader(account),
        Operation::OpenProvider { provider_account } => fresh_provider(provider_account),
        Operation::Stake { trader, .. } => 0 <= trader < venue.traders.len(),
        Operation::VerifyPriority { trader, .. } => 0 <= trader < venue.traders.len(),
        Operation::BatchStakeAndVerify { trader, .. } => 0 <= trader < venue.traders.len(),
        Operation::Unstake { trader, .. } => 0 <= trader < venue.traders.len(),
        Operation::RevealTrade { trader, .. } => 0 <= trader < venue.traders.len(),
        Operation::ProvideLiquidity { provider, .. } => 0 <= provider < venue.providers.len(),
    }
}

/// The venue with the trader at `position` and the totals replaced.
pub open spec fn with_trader(
    venue: Venue,
    position: int,
    account: TraderAccount,
    global: GlobalState,
) -> Venue {
    Venue { global, traders: venue.traders.update(position, account), providers: venue.providers }
}

/// The venue after the operation, whatever its outcome; an operation that is
/// not applicable leaves it as it is.
pub open spec fn apply(venue: Venue, cfg: Config, op: Operation) -> Venue {
    if !applicable(venue, op) {
        venue
    } else {
        match op {
            Operation::OpenTrader { account } => Venue {
                traders: venue.traders.push(account),
                ..venue
            },
            Operation::OpenProvider { provider_account } => Venue {
                providers: venue.providers.push(provider_account),
                ..venue
            },
            Operation::Stake { trader, amount, now } => {
                let after = stake_post(
                    Stake { trader_account: venue.traders[trader], global_state: venue.global },
                    amount,
                    now,
                );
                with_trader(venue, trader, after.trader_account, after.global_state)
            },
            Operation::VerifyPriority { trader, verdict, commitment, latency, now } => {
                let after = verify_priority_post(
                    VerifyPriority {
                        trader_account: venue.traders[trader],
                        global_state: venue.global,
                    },
                    cfg,
                    verdict,
                    commitment,
                    latency,
                    now,
                );
                with_trader(venue, trader, after.trader_account, after.global_state)
            },
            Operation::BatchStakeAndVerify {
                trader,
                amount,
                verdict,
                commitment,
                latency,
                now,
            } => {
                let after = batch_stake_and_verify_post(
                    BatchStakeAndVerify {
                        trader_account: venue.traders[trader],
                        global_state: venue.global,
                    },
                    cfg,
                    amount,
                    verdict,
                    commitment,
                    latency,
                    now,
                );
                with_trader(venue, trader, after.trader_account, after.global_state)
            },
            Operation::Unstake { trader, amount, now } => {
                let after = unstake_post(
                    Unstake { trader_account: venue.traders[trader], global_state: venue.global },
                    cfg,
                    amount,
                    now,
                );
                with_trader(venue, trader, after.trader_account, after.global_state)
            },
            Operation::RevealTrade { trader, revealed, now } => {
                let after = reveal_trade_post(
                    RevealTrade {
                        trader_account: venue.traders[trader],
                        global_state: venue.global,
                    },
                    cfg,
                    revealed,
                    now,
                );
                with_trader(venue, trader, after.trader_account, after.global_state)
            },
            Operation::ProvideLiquidity { provider, amount, trade_volume, now } => {
                let after = provide_liquidity_post(
                    ProvideLiquidity {
                        lp_account: venue.providers[provider],
                        global_state: venue.global,
                    },
                    cfg,
                    amount,
                    trade_volume,
                    now,
                );
                Venue {
                    global: after.global_state,
                    traders: venue.traders,
                    providers: venue.providers.update(provider, after.lp_account),
                }
            },
        }
    }
}

/// The venue after a sequence of operations, run in order from `start`.
pub open spec fn run(start: Venue, cfg: Config, ops: Seq<Operation>) -> Venue
    decreases ops.len(),
{
    if ops.len() == 0 {
        start
    } else {
        apply(run(start, cfg, ops.drop_last()), cfg, ops.last())
    }
}

/// Whether the operation is a rejected batch submission that lifts the
/// trader's counter to the maximum or beyond: the one step that counts an
/// invalid attempt without ever slashing.
pub open spec fn counts_without_slash(venue: Venue, cfg: Config, op: Operation) -> bool {
    &&& op matches Operation::BatchStakeAndVerify { trader, amount, verdict, latency, now, .. }
    &&& 0 <= trader < venue.traders.len()
    &&& batch_stake_and_verify_result(
        BatchStakeAndVerify { trader_account: venue.traders[trader], global_state: venue.global },
        cfg,
        amount,
        verdict,
        latency,
        now,
    ) == Err::<(), ErrorCode>(ErrorCode::InvalidProof)
    &&& slash_fires(venue.traders[trader], cfg)
}

/// Whether none of the operations, run in order from `start`, counts an
/// invalid attempt without slashing.
pub open spec fn always_slashes(start: Venue, cfg: Config, ops: Seq<Operation>) -> bool
    decreases ops.len(),
{
    if ops.len() == 0 {
        true
    } else {
        &&& always_slashes(start, cfg, ops.drop_last())
        &&& !counts_without_slash(run(start, cfg, ops.drop_last()), cfg, ops.last())
    }
}

/// Replacing one trader's record changes the sum of stakes by the change of
/// that trader's stake.
pub proof fn lemma_total_stake_update(
    traders: Seq<TraderAccount>,
    position: int,
    account: TraderAccount,
)
    requires
        0 <= position < traders.len(),
    ensures
        total_stake(traders.update(position, account)) == total_stake(traders)
            - traders[position].staked_amount + account.staked_amount,
    decreases traders.len(),
{
    let updated = traders.update(position, account);
    if position == traders.len() - 1 {
        assert(updated.drop_last() =~= traders.drop_last());
    } else {
        assert(updated.drop_last() =~= traders.drop_last().update(position, account));
        lemma_total_stake_update(traders.drop_last(), position, account);
    }
}

/// Replacing one provider's record changes the sum of liquidity by the change
/// of that provider's liquidity.
pub proof fn lemma_total_provided_update(
    providers: Seq<LiquidityAccount>,
    position: int,
    account: LiquidityAccount,
)
    requires
        0 <= position < providers.len(),
    ensures
        total_provided(providers.update(position, account)) == total_provided(providers)
            - providers[position].liquidity_provided + account.liquidity_provided,
    decreases providers.len(),
{
    let updated = providers.update(position, account);
    if position == providers.len() - 1 {
        assert(updated.drop_last() =~= providers.drop_last());
    } else {
        assert(updated.drop_last() =~= providers.drop_last().update(position, account));
        lemma_total_provided_update(providers.drop_last(), position, account);
    }
}

/// Every operation changes a balance and the total that mirrors it by the
/// same amount: a consistent venue stays consistent.
pub proof fn lemma_step_keeps_consistency(venue: Venue, cfg: Config, op: Operation)
    requires
        cfg.wf(),
        consistent(venue),
    ensures
        consistent(apply(venue, cfg, op)),
{
    if applicable(venue, op) {
        match op {
            Operation::OpenTrader { account } => {
                assert(venue.traders.push(account).drop_last() =~= venue.traders);
            },
            Operation::OpenProvider { provider_account } => {
                assert(venue.providers.push(provider_account).drop_last() =~= venue.providers);
            },
            Operation::Stake { trader, amount, now } => {
                let after = stake_post(
                    Stake { trader_account: venue.traders[trader], global_state: venue.global },
                    amount,
                    now,
                );
                lemma_total_stake_update(venue.traders, trader, after.trader_account);
            },
            Operation::VerifyPriority { trader, verdict, commitment, latency, now } => {
                let after = verify_priority_post(
                    VerifyPriority {
                        trader_account: venue.traders[trader],
                        global_state: venue.global,
                    },
                    cfg,
                    verdict,
                    commitment,
                    latency,
                    now,
                );
                lemma_total_stake_update(venue.traders, trader, after.trader_account);
            },
            Operation::BatchStakeAndVerify {
                trader,
                amount,
                verdict,
                commitment,
                latency,
                now,
            } => {
                let after = batch_stake_and_verify_post(
                    BatchStakeAndVerify {
                        trader_account: venue.traders[trader],
                        global_state: venue.global,
                    },
                    cfg,
                    amount,
                    verdict,
                    commitment,
                    latency,
                    now,
                );
                lemma_total_stake_update(venue.traders, trader, after.trader_account);
            },
            Operation::Unstake { trader, amount, now } => {
                let after = unstake_post(
                    Unstake { trader_account: venue.traders[trader], global_state: venue.global },
                    cfg,
                    amount,
                    now,
                );
                lemma_total_stake_update(venue.traders, trader, after.trader_account);
            },
            Operation::RevealTrade { trader, revealed, now } => {
                let after = reveal_trade_post(
                    RevealTrade {
                        trader_account: venue.traders[trader],
                        global_state: venue.global,
                    },
                    cfg,
                    revealed,
                    now,
                );
                lemma_total_stake_update(venue.traders, trader, after.trader_account);
            },
            Operation::ProvideLiquidity { provider, amount, trade_volume, now } => {
                let after = provide_liquidity_post(
                    ProvideLiquidity {
                        lp_account: venue.providers[provider],
                        global_state: venue.global,
                    },
                    cfg,
                    amount,
                    trade_volume,
                    now,
                );
                lemma_total_provided_update(venue.providers, provider, after.lp_account);
            },
        }
    }
}

/// In every state that the operations reach from a freshly initialised venue,
/// the total stake is the sum of the traders' stakes and the total liquidity
/// is the sum of the providers' liquidity.
pub proof fn lemma_aggregates_consistent(admin: [u8; 32], cfg: Config, ops: Seq<Operation>)
    requires
        cfg.wf(),
    ensures
        consistent(run(opened(admin), cfg, ops)),
    decreases ops.len(),
{
    if ops.len() > 0 {
        lemma_aggregates_consistent(admin, cfg, ops.drop_last());
        lemma_step_keeps_consistency(run(opened(admin), cfg, ops.drop_last()), cfg, ops.last());
    }
}

/// A step that does not count an invalid attempt without slashing keeps every
/// trader's counter at most one below the maximum.
pub proof fn lemma_step_keeps_counters_bounded(venue: Venue, cfg: Config, op: Operation)
    requires
        cfg.wf(),
        counters_bounded(venue, cfg),
        !counts_without_slash(venue, cfg, op),
    ensures
        counters_bounded(apply(venue, cfg, op), cfg),
{
}

/// In every state reached from a freshly initialised venue by operations that
/// never count an invalid attempt without slashing, each trader's counter is
/// at most one below the maximum.
pub proof fn lemma_counters_bounded(admin: [u8; 32], cfg: Config, ops: Seq<Operation>)
    requires
        cfg.wf(),
        always_slashes(opened(admin), cfg, ops),
    ensures
        counters_bounded(run(opened(admin), cfg, ops), cfg),
    decreases ops.len(),
{
    if ops.len() > 0 {
        lemma_counters_bounded(admin, cfg, ops.drop_last());
        lemma_step_keeps_counters_bounded(
            run(opened(admin), cfg, ops.drop_last()),
            cfg,
            ops.last(),
        );
    }
}

} // verus!
