//! The records that the engine keeps: the venue-wide totals and one record per
//! trader and per liquidity provider.

use vstd::prelude::*;

verus! {

/// Venue-wide totals. `total_staked` mirrors the sum of all traders' stakes,
/// `total_liquidity` the sum of all providers' liquidity.
#[derive(Clone, Copy, Debug, PartialEq, Eq)]
pub struct GlobalState {
    /// Identity of the administrator.
    pub admin: [u8; 32],
    pub total_staked: u64,
    pub total_liquidity: u64,
}

/// A trader's record.
#[derive(Clone, Copy, Debug, PartialEq, Eq)]
pub struct TraderAccount {
    /// Identity of the trader who owns the record.
    pub trader: [u8; 32],
    pub staked_amount: u64,
    pub is_verified: bool,
    /// Time after which the last submitted proof no longer counts.
    pub proof_expiry: i64,
    /// Time of the last accepted proof submission.
    pub last_proof_update: i64,
    /// Digest of the last accepted proof.
    pub zk_proof_hash: [u8; 32],
    /// Rejected submissions since the last accepted one or the last slash.
    pub invalid_proof_attempts: u8,
    /// Digest that the order revealed later has to match.
    pub commitment: [u8; 32],
    pub last_stake_timestamp: i64,
    /// Higher for lower reported latency.
    pub speed_multiplier: u64,
    pub trade_volume: u64,
}

/// A liquidity provider's record.
#[derive(Clone, Copy, Debug, PartialEq, Eq)]
pub struct LiquidityAccount {
    /// Identity of the provider who owns the record.
    pub lp: [u8; 32],
    /// Deposits and bonuses credited so far.
    pub liquidity_provided: u64,
    pub is_priority_pool: bool,
    pub reward_balance: u64,
    /// Start of the lock window that gates deposits.
    pub lock_timestamp: i64,
    pub trade_volume: u64,
}

} // verus!
