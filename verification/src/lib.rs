//! Settlement and priority-allocation engine of a confidential trading venue.
//!
//! Traders stake collateral, submit proofs of eligibility, commit to hidden
//! orders and later reveal them; liquidity providers deposit into pools. Every
//! operation acts on the accounts of one participant and on the venue-wide
//! totals, and either commits as a whole or leaves the accounts untouched.

pub mod accounts;
pub mod arith;
pub mod config;
pub mod error;
pub mod hash;
pub mod penalty;
pub mod staking;
pub mod verification;
pub mod bandwidth;
pub mod liquidity;
pub mod venue;

pub use accounts::{GlobalState, LiquidityAccount, TraderAccount};
pub use bandwidth::{allocate_bandwidth, AllocateBandwidth};
pub use config::Config;
pub use error::ErrorCode;
pub use liquidity::{provide_liquidity, ProvideLiquidity};
pub use staking::{initialize, stake, unstake, Initialize, Stake, Unstake};
pub use verification::{
    batch_stake_and_verify, reveal_trade, verify_priority, BatchStakeAndVerify, RevealTrade,
    VerifyPriority,
};
