//! The adjustable constants of the engine.

use vstd::prelude::*;

verus! {

/// How long a submitted proof stays valid, in time units.
pub const PROOF_VALIDITY_PERIOD: i64 = 3600;

/// Share of the stake burned as a fee on each accepted proof, in percent.
pub const FEE_PERCENTAGE: u8 = 1;

/// Number of consecutive rejected submissions at which a slash is applied.
pub const MAX_INVALID_PROOFS: u8 = 3;

/// Share of the stake forfeited by a slash, in percent.
pub const SLASH_PERCENTAGE: u8 = 20;

/// Time over which the stake's weight in the bandwidth priority decays to zero.
pub const DECAY_PERIOD: i64 = 86400;

/// Time after staking during which nothing can be unstaked.
pub const LOCKUP_PERIOD: i64 = 3600;

/// Time after a proof submission before the committed order may be revealed.
pub const REVEAL_DELAY: i64 = 30;

/// Bonus credited on deposits into a priority pool, in percent.
pub const PRIORITY_POOL_BONUS: u8 = 10;

/// Time after a provider's lock timestamp during which deposits are refused.
pub const LIQUIDITY_LOCK_PERIOD: i64 = 86400;

/// The constants that every operation is parameterised by.
#[derive(Clone, Copy, Debug, PartialEq, Eq)]
pub struct Config {
    pub proof_validity_period: i64,
    pub fee_percentage: u8,
    pub max_invalid_proofs: u8,
    pub slash_percentage: u8,
    pub decay_period: i64,
    pub lockup_period: i64,
    pub reveal_delay: i64,
    pub priority_pool_bonus: u8,
    pub liquidity_lock_period: i64,
}

impl Config {
    /// A configuration is well formed when no period is negative, the decay
    /// period is positive, and at least one rejected submission is needed
    /// before a slash.
    pub open spec fn wf(&self) -> bool {
        &&& self.proof_validity_period >= 0
        &&& self.decay_period > 0
        &&& self.lockup_period >= 0
        &&& self.reveal_delay >= 0
        &&& self.liquidity_lock_period >= 0
        &&& self.max_invalid_proofs >= 1
    }

    /// The configuration made of the default constants.
    pub open spec fn standard() -> Config {
        Config {
            proof_validity_period: PROOF_VALIDITY_PERIOD,
            fee_percentage: FEE_PERCENTAGE,
            max_invalid_proofs: MAX_INVALID_PROOFS,
            slash_percentage: SLASH_PERCENTAGE,
            decay_period: DECAY_PERIOD,
            lockup_period: LOCKUP_PERIOD,
            reveal_delay: REVEAL_DELAY,
            priority_pool_bonus: PRIORITY_POOL_BONUS,
            liquidity_lock_period: LIQUIDITY_LOCK_PERIOD,
        }
    }

    /// Decides whether the configuration is well formed.
    pub fn is_valid(&self) -> (ok: bool)
        ensures
            ok == self.wf(),
    {
        self.proof_validity_period >= 0 && self.decay_period > 0 && self.lockup_period >= 0
            && self.reveal_delay >= 0 && self.liquidity_lock_period >= 0
            && self.max_invalid_proofs >= 1
    }
}

impl Default for Config {
    fn default() -> (cfg: Config)
        ensures
            cfg == Config::standard(),
            cfg.wf(),
    {
        Config {
            proof_validity_period: PROOF_VALIDITY_PERIOD,
            fee_percentage: FEE_PERCENTAGE,
            max_invalid_proofs: MAX_INVALID_PROOFS,
            slash_percentage: SLASH_PERCENTAGE,
            decay_period: DECAY_PERIOD,
            lockup_period: LOCKUP_PERIOD,
            reveal_delay: REVEAL_DELAY,
            priority_pool_bonus: PRIORITY_POOL_BONUS,
            liquidity_lock_period: LIQUIDITY_LOCK_PERIOD,
        }
    }
}

} // verus!
