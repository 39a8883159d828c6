//! The commit-reveal protocol: a trader submits a proof together with a
//! commitment to a hidden order, and after a delay reveals the order. A
//! rejected submission or reveal is penalised.
//!
//! Each operation comes in two layers. The outer one takes the submitted
//! bytes, asks the proof validity oracle and the commitment hasher, and hands
//! their answers on. The inner one takes those answers as plain values and
//! does all the bookkeeping.

use vstd::prelude::*;
use crate::accounts::{GlobalState, TraderAccount};
use crate::arith::{
    checked_percent,
    checked_speed_multiplier,
    percent_fits,
    percent_of,
    speed_multiplier_of,
};
use crate::config::Config;
use crate::error::ErrorCode;
use crate::hash::{digest_eq, hash_bytes, hash_digest};
use crate::penalty::{penalize, penalized_global, penalized_trader, penalty_error};

verus! {

/// Shortest proof that the default validity oracle accepts, in bytes.
pub const MIN_PROOF_LEN: usize = 10;

/// The accounts that a proof submission touches.
#[derive(Clone, Copy, Debug, PartialEq, Eq)]
pub struct VerifyPriority {
    pub trader_account: TraderAccount,
    pub global_state: GlobalState,
}

/// The accounts that the batch fast path touches.
#[derive(Clone, Copy, Debug, PartialEq, Eq)]
pub struct BatchStakeAndVerify {
    pub trader_account: TraderAccount,
    pub global_state: GlobalState,
}

/// The accounts that a reveal touches.
#[derive(Clone, Copy, Debug, PartialEq, Eq)]
pub struct RevealTrade {
    pub trader_account: TraderAccount,
    pub global_state: GlobalState,
}

/// The default proof validity oracle: a proof is acceptable when it has at
/// least `MIN_PROOF_LEN` bytes.
pub open spec fn proof_acceptable(proof: Seq<u8>) -> bool {
    proof.len() >= MIN_PROOF_LEN
}

/// The oracle's verdict on a proof, as the bookkeeping takes it: the digest
/// of an accepted proof, or `None` for a rejected one.
pub open spec fn judged_proof(proof: Seq<u8>) -> Option<[u8; 32]> {
    if proof_acceptable(proof) {
        Some(hash_digest(proof))
    } else {
        None
    }
}

/// What a reveal puts forward: the digest of the revealed order when the
/// range proof is acceptable, `None` when it is rejected.
pub open spec fn judged_reveal(order: Seq<u8>, range_proof: Seq<u8>) -> Option<[u8; 32]> {
    if proof_acceptable(range_proof) {
        Some(hash_digest(order))
    } else {
        None
    }
}

/// Asks the default oracle whether `proof` is acceptable.
pub fn is_acceptable_proof(proof: &[u8]) -> (ok: bool)
    ensures
        ok == proof_acceptable(proof@),
{
    proof.len() >= MIN_PROOF_LEN
}

/// Judges a submitted proof: its digest if the oracle accepts it.
pub fn judge_proof(proof: &[u8]) -> (verdict: Option<[u8; 32]>)
    ensures
        verdict == judged_proof(proof@),
{
    if is_acceptable_proof(proof) {
        Some(hash_bytes(proof))
    } else {
        None
    }
}

/// Judges a reveal: the digest of the order if the oracle accepts the range
/// proof.
pub fn judge_reveal(order: &[u8], range_proof: &[u8]) -> (verdict: Option<[u8; 32]>)
    ensures
        verdict == judged_reveal(order@, range_proof@),
{
    if is_acceptable_proof(range_proof) {
        Some(hash_bytes(order))
    } else {
        None
    }
}

/// The fee burned from a stake on an accepted proof.
pub open spec fn fee_amount(staked: u64, cfg: Config) -> int {
    percent_of(staked as int, cfg.fee_percentage as int)
}

/// The arithmetic failure that keeps the fee from being taken from a stake
/// and a total, if any.
pub open spec fn fee_error(staked: u64, total: u64, cfg: Config) -> Option<ErrorCode> {
    if !percent_fits(staked as int, cfg.fee_percentage as int) {
        Some(ErrorCode::ArithmeticOverflow)
    } else if fee_amount(staked, cfg) > staked || fee_amount(staked, cfg) > total {
        Some(ErrorCode::ArithmeticUnderflow)
    } else {
        None
    }
}

/// The trader's record with an accepted proof stored: digest and commitment,
/// submission time and expiry, the speed multiplier for the reported latency,
/// and the counter of invalid attempts back at zero.
pub open spec fn proof_recorded(
    trader: TraderAccount,
    cfg: Config,
    digest: [u8; 32],
    commitment: [u8; 32],
    latency: u64,
    now: i64,
) -> TraderAccount {
    TraderAccount {
        zk_proof_hash: digest,
        commitment,
        last_proof_update: now,
        proof_expiry: (now + cfg.proof_validity_period) as i64,
        speed_multiplier: speed_multiplier_of(latency as int) as u64,
        invalid_proof_attempts: 0,
        ..trader
    }
}

/// The outcome of a proof submission, given the oracle's verdict.
pub open spec fn verify_priority_result(
    ctx: VerifyPriority,
    cfg: Config,
    verdict: Option<[u8; 32]>,
    latency: u64,
    now: i64,
) -> Result<(), ErrorCode> {
    let trader = ctx.trader_account;
    let global = ctx.global_state;
    if verdict is None {
        if penalty_error(trader, global, cfg) is Some {
            Err(penalty_error(trader, global, cfg)->Some_0)
        } else {
            Err(ErrorCode::InvalidProof)
        }
    } else if now + cfg.proof_validity_period > i64::MAX {
        Err(ErrorCode::ArithmeticOverflow)
    } else if fee_error(trader.staked_amount, global.total_staked, cfg) is Some {
        Err(fee_error(trader.staked_amount, global.total_staked, cfg)->Some_0)
    } else if latency == u64::MAX {
        Err(ErrorCode::DivisionByZero)
    } else {
        Ok(())
    }
}

/// The accounts after a proof submission with the given outcome: the
/// recorded proof and the fee on success, the penalty on a rejection, and no
/// change on any other failure.
pub open spec fn verify_priority_post(
    ctx: VerifyPriority,
    cfg: Config,
    verdict: Option<[u8; 32]>,
    commitment: [u8; 32],
    latency: u64,
    now: i64,
) -> VerifyPriority {
    let trader = ctx.trader_account;
    let global = ctx.global_state;
    match verify_priority_result(ctx, cfg, verdict, latency, now) {
        Ok(_) => VerifyPriority {
            trader_account: TraderAccount {
                staked_amount: (trader.staked_amount - fee_amount(trader.staked_amount, cfg)) as u64,
                ..proof_recorded(trader, cfg, verdict->Some_0, commitment, latency, now)
            },
            global_state: GlobalState {
                total_staked: (global.total_staked - fee_amount(trader.staked_amount, cfg)) as u64,
                ..global
            },
        },
        Err(ErrorCode::InvalidProof) => VerifyPriority {
            trader_account: penalized_trader(trader, cfg),
            global_state: penalized_global(trader, global, cfg),
        },
        Err(_) => ctx,
    }
}

/// Books a proof submission on which the oracle has given its verdict.
///
/// `verdict` is the digest of the accepted proof, or `None` if the oracle
/// rejected it. A rejection is penalised and reported as `InvalidProof`. An
/// accepted proof is stored with `commitment`, expires one validity period
/// after `now`, costs the fee, and sets the speed multiplier for `latency`.
/// An arithmetic failure on either path leaves the accounts as they were.
pub fn settle_submission(
    ctx: &mut VerifyPriority,
    cfg: &Config,
    verdict: Option<[u8; 32]>,
    commitment: [u8; 32],
    latency: u64,
    now: i64,
) -> (res: Result<(), ErrorCode>)
    requires
        cfg.wf(),
    ensures
        res == verify_priority_result(*old(ctx), *cfg, verdict, latency, now),
        *final(ctx) == verify_priority_post(*old(ctx), *cfg, verdict, commitment, latency, now),
{
    let digest: [u8; 32] = match verdict {
        Some(d) => d,
        None => {
            let reported: ErrorCode = penalize(
                &mut ctx.trader_account,
                &mut ctx.global_state,
                cfg,
                ErrorCode::InvalidProof,
            );
            return Err(reported);
        },
    };
    let expiry: i64 = match now.checked_add(cfg.proof_validity_period) {
        Some(t) => t,
        None => { return Err(ErrorCode::ArithmeticOverflow); },
    };
    let fee: u64 = match checked_percent(ctx.trader_account.staked_amount, cfg.fee_percentage) {
        Ok(amount) => amount,
        Err(e) => { return Err(e); },
    };
    if fee > ctx.trader_account.staked_amount || fee > ctx.global_state.total_staked {
        return Err(ErrorCode::ArithmeticUnderflow);
    }
    let multiplier: u64 = match checked_speed_multiplier(latency) {
        Ok(m) => m,
        Err(e) => { return Err(e); },
    };
    ctx.trader_account.zk_proof_hash = digest;
    ctx.trader_account.commitment = commitment;
    ctx.trader_account.last_proof_update = now;
    ctx.trader_account.proof_expiry = expiry;
    ctx.trader_account.staked_amount = ctx.trader_account.staked_amount - fee;
    ctx.global_state.total_staked = ctx.global_state.total_staked - fee;
    ctx.trader_account.speed_multiplier = multiplier;
    ctx.trader_account.invalid_proof_attempts = 0;
    Ok(())
}

/// Submits a proof with a commitment to a hidden order.
///
/// The proof is judged by the default oracle and fingerprinted by the
/// commitment hasher; the outcome and the accounts afterwards are those of
/// [`settle_submission`] on that verdict. Verified status is not granted
/// here: it takes a matching reveal.
pub fn verify_priority(
    ctx: &mut VerifyPriority,
    cfg: &Config,
    zk_proof: Vec<u8>,
    commitment: [u8; 32],
    latency: u64,
    now: i64,
) -> (res: Result<(), ErrorCode>)
    requires
        cfg.wf(),
    ensures
        res == verify_priority_result(*old(ctx), *cfg, judged_proof(zk_proof@), latency, now),
        *final(ctx) == verify_priority_post(
            *old(ctx),
            *cfg,
            judged_proof(zk_proof@),
            commitment,
            latency,
            now,
        ),
        final(ctx).trader_account.is_verified == old(ctx).trader_account.is_verified,
{
    let verdict: Option<[u8; 32]> = judge_proof(zk_proof.as_slice());
    settle_submission(ctx, cfg, verdict, commitment, latency, now)
}

/// Whether a reveal at `now` comes before the reveal delay has passed since
/// the last accepted proof.
pub open spec fn reveal_too_early(trader: TraderAccount, cfg: Config, now: i64) -> bool {
    now < trader.last_proof_update + cfg.reveal_delay
}

/// Decides whether a reveal at `now` comes too early.
pub fn is_reveal_too_early(trader: &TraderAccount, cfg: &Config, now: i64) -> (early: bool)
    ensures
        early == reveal_too_early(*trader, *cfg, now),
{
    let earliest: i128 = trader.last_proof_update as i128 + cfg.reveal_delay as i128;
    (now as i128) < earliest
}

/// The outcome of a reveal, given what it puts forward.
pub open spec fn reveal_trade_result(
    ctx: RevealTrade,
    cfg: Config,
    revealed: Option<[u8; 32]>,
    now: i64,
) -> Result<(), ErrorCode> {
    let trader = ctx.trader_account;
    let global = ctx.global_state;
    if reveal_too_early(trader, cfg, now) {
        Err(ErrorCode::RevealTooEarly)
    } else if revealed == Some(trader.commitment) {
        Ok(())
    } else if penalty_error(trader, global, cfg) is Some {
        Err(penalty_error(trader, global, cfg)->Some_0)
    } else {
        Err(ErrorCode::InvalidReveal)
    }
}

/// The accounts after a reveal with the given outcome: verified on success,
/// penalised on an invalid reveal, unchanged on any other failure.
pub open spec fn reveal_trade_post(
    ctx: RevealTrade,
    cfg: Config,
    revealed: Option<[u8; 32]>,
    now: i64,
) -> RevealTrade {
    let trader = ctx.trader_account;
    let global = ctx.global_state;
    match reveal_trade_result(ctx, cfg, revealed, now) {
        Ok(_) => RevealTrade {
            trader_account: TraderAccount { is_verified: true, ..trader },
            global_state: global,
        },
        Err(ErrorCode::InvalidReveal) => RevealTrade {
            trader_account: penalized_trader(trader, cfg),
            global_state: penalized_global(trader, global, cfg),
        },
        Err(_) => ctx,
    }
}

/// Books a reveal on which the oracle has given its verdict.
///
/// `revealed` is the digest of the revealed order, or `None` if the oracle
/// rejected the range proof. Before the reveal delay has passed the reveal is
/// refused with `RevealTooEarly`. A digest equal to the stored commitment
/// makes the trader verified. A rejected range proof and a digest that
/// differs are penalised alike and reported as `InvalidReveal`.
pub fn settle_reveal(
    ctx: &mut RevealTrade,
    cfg: &Config,
    revealed: Option<[u8; 32]>,
    now: i64,
) -> (res: Result<(), ErrorCode>)
    requires
        cfg.wf(),
    ensures
        res == reveal_trade_result(*old(ctx), *cfg, revealed, now),
        *final(ctx) == reveal_trade_post(*old(ctx), *cfg, revealed, now),
{
    if is_reveal_too_early(&ctx.trader_account, cfg, now) {
        return Err(ErrorCode::RevealTooEarly);
    }
    let matches: bool = match revealed {
        Some(digest) => digest_eq(&digest, &ctx.trader_account.commitment),
        None => false,
    };
    if !matches {
        let reported: ErrorCode = penalize(
            &mut ctx.trader_account,
            &mut ctx.global_state,
            cfg,
            ErrorCode::InvalidReveal,
        );
        return Err(reported);
    }
    ctx.trader_account.is_verified = true;
    Ok(())
}

/// Reveals the order behind the stored commitment.
///
/// The range proof is judged by the default oracle and the order is
/// fingerprinted by the commitment hasher; the outcome and the accounts
/// afterwards are those of [`settle_reveal`] on that verdict.
pub fn reveal_trade(
    ctx: &mut RevealTrade,
    cfg: &Config,
    actual_order: Vec<u8>,
    order_range_proof: Vec<u8>,
    now: i64,
) -> (res: Result<(), ErrorCode>)
    requires
        cfg.wf(),
    ensures
        res == reveal_trade_result(
            *old(ctx),
            *cfg,
            judged_reveal(actual_order@, order_range_proof@),
            now,
        ),
        *final(ctx) == reveal_trade_post(
            *old(ctx),
            *cfg,
            judged_reveal(actual_order@, order_range_proof@),
            now,
        ),
{
    let revealed: Option<[u8; 32]> = judge_reveal(
        actual_order.as_slice(),
        order_range_proof.as_slice(),
    );
    settle_reveal(ctx, cfg, revealed, now)
}

/// The outcome of the batch fast path, given the oracle's verdict. The stake
/// and the fee are computed first, so their arithmetic failures come before
/// a rejection.
pub open spec fn batch_stake_and_verify_result(
    ctx: BatchStakeAndVerify,
    cfg: Config,
    amount: u64,
    verdict: Option<[u8; 32]>,
    latency: u64,
    now: i64,
) -> Result<(), ErrorCode> {
    let trader = ctx.trader_account;
    let global = ctx.global_state;
    let new_stake = trader.staked_amount + amount;
    let new_total = global.total_staked + amount;
    if new_stake > u64::MAX || new_total > u64::MAX {
        Err(ErrorCode::ArithmeticOverflow)
    } else if fee_error(new_stake as u64, new_total as u64, cfg) is Some {
        Err(fee_error(new_stake as u64, new_total as u64, cfg)->Some_0)
    } else if verdict is None {
        if trader.invalid_proof_attempts == u8::MAX {
            Err(ErrorCode::ArithmeticOverflow)
        } else {
            Err(ErrorCode::InvalidProof)
        }
    } else if now + cfg.proof_validity_period > i64::MAX {
        Err(ErrorCode::ArithmeticOverflow)
    } else if latency == u64::MAX {
        Err(ErrorCode::DivisionByZero)
    } else {
        Ok(())
    }
}

/// The accounts after the batch fast path with the given outcome. On success
/// the amount is staked, the fee on the new stake is burned, the proof is
/// recorded and the trader is verified. A rejection raises the counter of
/// invalid attempts by one and does nothing else: no stake, no fee, no slash.
pub open spec fn batch_stake_and_verify_post(
    ctx: BatchStakeAndVerify,
    cfg: Config,
    amount: u64,
    verdict: Option<[u8; 32]>,
    commitment: [u8; 32],
    latency: u64,
    now: i64,
) -> BatchStakeAndVerify {
    let trader = ctx.trader_account;
    let global = ctx.global_state;
    let new_stake = (trader.staked_amount + amount) as u64;
    match batch_stake_and_verify_result(ctx, cfg, amount, verdict, latency, now) {
        Ok(_) => BatchStakeAndVerify {
            trader_account: TraderAccount {
                staked_amount: (new_stake - fee_amount(new_stake, cfg)) as u64,
                last_stake_timestamp: now,
                is_verified: true,
                ..proof_recorded(trader, cfg, verdict->Some_0, commitment, latency, now)
            },
            global_state: GlobalState {
                total_staked: (global.total_staked + amount - fee_amount(new_stake, cfg)) as u64,
                ..global
            },
        },
        Err(ErrorCode::InvalidProof) => BatchStakeAndVerify {
            trader_account: TraderAccount {
                invalid_proof_attempts: (trader.invalid_proof_attempts + 1) as u8,
                ..trader
            },
            global_state: global,
        },
        Err(_) => ctx,
    }
}

/// Books the batch fast path on a proof on which the oracle has given its
/// verdict.
///
/// `amount` is what the caller has moved into stake custody; `verdict` is the
/// digest of the accepted proof, or `None` if the oracle rejected it. An
/// accepted proof stakes the amount, burns the fee, stores the proof and
/// grants verified status at once, without a reveal. A rejection is reported
/// as `InvalidProof` and counted, but never slashed, and the amount is not
/// credited.
pub fn settle_batch(
    ctx: &mut BatchStakeAndVerify,
    cfg: &Config,
    amount: u64,
    verdict: Option<[u8; 32]>,
    commitment: [u8; 32],
    latency: u64,
    now: i64,
) -> (res: Result<(), ErrorCode>)
    requires
        cfg.wf(),
    ensures
        res == batch_stake_and_verify_result(*old(ctx), *cfg, amount, verdict, latency, now),
        *final(ctx) == batch_stake_and_verify_post(
            *old(ctx),
            *cfg,
            amount,
            verdict,
            commitment,
            latency,
            now,
        ),
{
    let new_stake: u64 = match ctx.trader_account.staked_amount.checked_add(amount) {
        Some(sum) => sum,
        None => { return Err(ErrorCode::ArithmeticOverflow); },
    };
    let new_total: u64 = match ctx.global_state.total_staked.checked_add(amount) {
        Some(sum) => sum,
        None => { return Err(ErrorCode::ArithmeticOverflow); },
    };
    let fee: u64 = match checked_percent(new_stake, cfg.fee_percentage) {
        Ok(part) => part,
        Err(e) => { return Err(e); },
    };
    if fee > new_stake || fee > new_total {
        return Err(ErrorCode::ArithmeticUnderflow);
    }
    let digest: [u8; 32] = match verdict {
        Some(d) => d,
        None => {
            match ctx.trader_account.invalid_proof_attempts.checked_add(1) {
                Some(attempts) => {
                    ctx.trader_account.invalid_proof_attempts = attempts;
                    return Err(ErrorCode::InvalidProof);
                },
                None => { return Err(ErrorCode::ArithmeticOverflow); },
            }
        },
    };
    let expiry: i64 = match now.checked_add(cfg.proof_validity_period) {
        Some(t) => t,
        None => { return Err(ErrorCode::ArithmeticOverflow); },
    };
    let multiplier: u64 = match checked_speed_multiplier(latency) {
        Ok(m) => m,
        Err(e) => { return Err(e); },
    };
    ctx.trader_account.staked_amount = new_stake - fee;
    ctx.trader_account.last_stake_timestamp = now;
    ctx.global_state.total_staked = new_total - fee;
    ctx.trader_account.zk_proof_hash = digest;
    ctx.trader_account.commitment = commitment;
    ctx.trader_account.last_proof_update = now;
    ctx.trader_account.proof_expiry = expiry;
    ctx.trader_account.speed_multiplier = multiplier;
    ctx.trader_account.is_verified = true;
    ctx.trader_account.invalid_proof_attempts = 0;
    Ok(())
}

/// Stakes, pays the fee, submits a proof and becomes verified in one step.
///
/// The proof is judged by the default oracle and fingerprinted by the
/// commitment hasher; the outcome and the accounts afterwards are those of
/// [`settle_batch`] on that verdict.
pub fn batch_stake_and_verify(
    ctx: &mut BatchStakeAndVerify,
    cfg: &Config,
    amount: u64,
    zk_proof: Vec<u8>,
    commitment: [u8; 32],
    latency: u64,
    now: i64,
) -> (res: Result<(), ErrorCode>)
    requires
        cfg.wf(),
    ensures
        res == batch_stake_and_verify_result(
            *old(ctx),
            *cfg,
            amount,
            judged_proof(zk_proof@),
            latency,
            now,
        ),
        *final(ctx) == batch_stake_and_verify_post(
            *old(ctx),
            *cfg,
            amount,
            judged_proof(zk_proof@),
            commitment,
            latency,
            now,
        ),
{
    let verdict: Option<[u8; 32]> = judge_proof(zk_proof.as_slice());
    settle_batch(ctx, cfg, amount, verdict, commitment, latency, now)
}

/// The accounts of a proof submission, seen as the accounts of a reveal.
pub open spec fn reveal_accounts(ctx: VerifyPriority) -> RevealTrade {
    RevealTrade { trader_account: ctx.trader_account, global_state: ctx.global_state }
}

/// Commit, then reveal: after a submission that succeeded with the digest of
/// an order as its commitment, a reveal of that order with an acceptable
/// range proof, made once the reveal delay has passed, succeeds, and the
/// trader is verified.
pub proof fn lemma_commit_reveal_round_trip(
    ctx: VerifyPriority,
    cfg: Config,
    zk_proof: Seq<u8>,
    order: Seq<u8>,
    range_proof: Seq<u8>,
    latency: u64,
    submitted_at: i64,
    revealed_at: i64,
)
    requires
        cfg.wf(),
        proof_acceptable(zk_proof),
        proof_acceptable(range_proof),
        verify_priority_result(ctx, cfg, judged_proof(zk_proof), latency, submitted_at) is Ok,
        revealed_at >= submitted_at + cfg.reveal_delay,
    ensures
        ({
            let committed = reveal_accounts(
                verify_priority_post(
                    ctx,
                    cfg,
                    judged_proof(zk_proof),
                    hash_digest(order),
                    latency,
                    submitted_at,
                ),
            );
            let revealed = judged_reveal(order, range_proof);
            &&& reveal_trade_result(committed, cfg, revealed, revealed_at) is Ok
            &&& reveal_trade_post(committed, cfg, revealed, revealed_at).trader_account.is_verified
        }),
{
}

/// Commit, then reveal something else: after a submission that succeeded with
/// the digest of an order as its commitment, a reveal of an order with
/// another digest, made once the reveal delay has passed, is penalised. Where
/// the penalty itself does not fail, the reveal is reported as
/// `InvalidReveal`, and in either case the trader's verified status stays as
/// it was before the submission.
pub proof fn lemma_mismatched_reveal_rejected(
    ctx: VerifyPriority,
    cfg: Config,
    zk_proof: Seq<u8>,
    order: Seq<u8>,
    other_order: Seq<u8>,
    range_proof: Seq<u8>,
    latency: u64,
    submitted_at: i64,
    revealed_at: i64,
)
    requires
        cfg.wf(),
        proof_acceptable(zk_proof),
        verify_priority_result(ctx, cfg, judged_proof(zk_proof), latency, submitted_at) is Ok,
        revealed_at >= submitted_at + cfg.reveal_delay,
        hash_digest(other_order) != hash_digest(order),
    ensures
        ({
            let committed = reveal_accounts(
                verify_priority_post(
                    ctx,
                    cfg,
                    judged_proof(zk_proof),
                    hash_digest(order),
                    latency,
                    submitted_at,
                ),
            );
            let revealed = judged_reveal(other_order, range_proof);
            let outcome = reveal_trade_result(committed, cfg, revealed, revealed_at);
            let after = reveal_trade_post(committed, cfg, revealed, revealed_at);
            &&& outcome is Err
            &&& penalty_error(committed.trader_account, committed.global_state, cfg) is None
                ==> outcome == Err::<(), ErrorCode>(ErrorCode::InvalidReveal)
            &&& after.trader_account.is_verified == ctx.trader_account.is_verified
        }),
{
}

/// Fees compound: each accepted submission burns the fee percentage of the
/// stake as it stands at that moment, so the second of two successive
/// submissions is charged on the stake that the first one left, and the
/// venue's total falls by the same two fees.
pub proof fn lemma_fees_compound(
    ctx: VerifyPriority,
    cfg: Config,
    first_digest: [u8; 32],
    first_commitment: [u8; 32],
    first_latency: u64,
    first_at: i64,
    second_digest: [u8; 32],
    second_commitment: [u8; 32],
    second_latency: u64,
    second_at: i64,
)
    requires
        cfg.wf(),
        verify_priority_result(ctx, cfg, Some(first_digest), first_latency, first_at) is Ok,
        verify_priority_result(
            verify_priority_post(
                ctx,
                cfg,
                Some(first_digest),
                first_commitment,
                first_latency,
                first_at,
            ),
            cfg,
            Some(second_digest),
            second_latency,
            second_at,
        ) is Ok,
    ensures
        ({
            let once = verify_priority_post(
                ctx,
                cfg,
                Some(first_digest),
                first_commitment,
                first_latency,
                first_at,
            );
            let twice = verify_priority_post(
                once,
                cfg,
                Some(second_digest),
                second_commitment,
                second_latency,
                second_at,
            );
            let first_fee = fee_amount(ctx.trader_account.staked_amount, cfg);
            let second_fee = fee_amount(once.trader_account.staked_amount, cfg);
            &&& once.trader_account.staked_amount == ctx.trader_account.staked_amount - first_fee
            &&& twice.trader_account.staked_amount == ctx.trader_account.staked_amount - first_fee
                - second_fee
            &&& twice.global_state.total_staked == ctx.global_state.total_staked - first_fee
                - second_fee
            &&& second_fee == percent_of(
                ctx.trader_account.staked_amount - first_fee,
                cfg.fee_percentage as int,
            )
        }),
{
}

} // verus!
