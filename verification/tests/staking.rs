use zklr::config::{
    DECAY_PERIOD, FEE_PERCENTAGE, LIQUIDITY_LOCK_PERIOD, LOCKUP_PERIOD, MAX_INVALID_PROOFS,
    PRIORITY_POOL_BONUS, PROOF_VALIDITY_PERIOD, REVEAL_DELAY, SLASH_PERCENTAGE,
};
use zklr::{
    initialize, stake, unstake, Config, ErrorCode, GlobalState, Initialize, Stake, TraderAccount,
    Unstake,
};

fn trader(staked: u64) -> TraderAccount {
    TraderAccount {
        trader: [7u8; 32],
        staked_amount: staked,
        is_verified: false,
        proof_expiry: 0,
        last_proof_update: 0,
        zk_proof_hash: [0u8; 32],
        invalid_proof_attempts: 0,
        commitment: [0u8; 32],
        last_stake_timestamp: 0,
        speed_multiplier: 0,
        trade_volume: 0,
    }
}

fn global(total_staked: u64) -> GlobalState {
    GlobalState { admin: [1u8; 32], total_staked, total_liquidity: 0 }
}

#[test]
fn default_config_holds_the_documented_constants() {
    let cfg = Config::default();
    assert_eq!(cfg.proof_validity_period, 3600);
    assert_eq!(cfg.fee_percentage, 1);
    assert_eq!(cfg.max_invalid_proofs, 3);
    assert_eq!(cfg.slash_percentage, 20);
    assert_eq!(cfg.decay_period, 86400);
    assert_eq!(cfg.lockup_period, 3600);
    assert_eq!(cfg.reveal_delay, 30);
    assert_eq!(cfg.priority_pool_bonus, 10);
    assert_eq!(cfg.liquidity_lock_period, 86400);
    assert_eq!(
        cfg,
        Config {
            proof_validity_period: PROOF_VALIDITY_PERIOD,
            fee_percentage: FEE_PERCENTAGE,
            max_invalid_proofs: MAX_INVALID_PROOFS,
            slash_percentage: SLASH_PERCENTAGE,
            decay_period: DECAY_PERIOD,
            lockup_period: LOCKUP_PERIOD,
            reveal_delay: REVEAL_DELAY,
            priority_pool_bonus: PRIORITY_POOL_BONUS,
            liquidity_lock_period: LIQUIDITY_LOCK_PERIOD,
        }
    );
    assert!(cfg.is_valid());
}

#[test]
fn config_validity_is_checked() {
    let cfg = Config::default();
    assert!(!Config { decay_period: 0, ..cfg }.is_valid());
    assert!(!Config { max_invalid_proofs: 0, ..cfg }.is_valid());
    assert!(!Config { lockup_period: -1, ..cfg }.is_valid());
    assert!(!Config { reveal_delay: -1, ..cfg }.is_valid());
    assert!(!Config { proof_validity_period: -1, ..cfg }.is_valid());
    assert!(!Config { liquidity_lock_period: -1, ..cfg }.is_valid());
    assert!(Config { decay_period: 1, max_invalid_proofs: 1, slash_percentage: 255, ..cfg }
        .is_valid());
}

#[test]
fn initialize_sets_admin_and_zeroes_totals() {
    let mut ctx = Initialize {
        global_state: GlobalState { admin: [0u8; 32], total_staked: 55, total_liquidity: 66 },
    };
    assert_eq!(initialize(&mut ctx, [9u8; 32]), Ok(()));
    assert_eq!(
        ctx.global_state,
        GlobalState { admin: [9u8; 32], total_staked: 0, total_liquidity: 0 }
    );
}

#[test]
fn stake_credits_trader_and_total() {
    let mut ctx = Stake { trader_account: trader(100), global_state: global(1_000) };
    assert_eq!(stake(&mut ctx, 250, 42), Ok(()));
    assert_eq!(ctx.trader_account.staked_amount, 350);
    assert_eq!(ctx.trader_account.last_stake_timestamp, 42);
    assert_eq!(ctx.global_state.total_staked, 1_250);
    assert_eq!(ctx.trader_account, TraderAccount {
        staked_amount: 350,
        last_stake_timestamp: 42,
        ..trader(100)
    });
}

#[test]
fn stake_overflow_of_the_stake_changes_nothing() {
    let before = Stake { trader_account: trader(u64::MAX), global_state: global(0) };
    let mut ctx = before;
    assert_eq!(stake(&mut ctx, 1, 42), Err(ErrorCode::ArithmeticOverflow));
    assert_eq!(ctx, before);
}

#[test]
fn stake_overflow_of_the_total_changes_nothing() {
    let before = Stake { trader_account: trader(0), global_state: global(u64::MAX - 4) };
    let mut ctx = before;
    assert_eq!(stake(&mut ctx, 5, 42), Err(ErrorCode::ArithmeticOverflow));
    assert_eq!(ctx, before);
    assert_eq!(stake(&mut ctx, 4, 42), Ok(()));
    assert_eq!(ctx.global_state.total_staked, u64::MAX);
}

#[test]
fn unstake_before_the_lockup_ends_is_refused() {
    let cfg = Config::default();
    let mut ctx = Stake { trader_account: trader(0), global_state: global(0) };
    assert_eq!(stake(&mut ctx, 500, 1_000), Ok(()));
    let before =
        Unstake { trader_account: ctx.trader_account, global_state: ctx.global_state };
    let mut ctx = before;
    assert_eq!(unstake(&mut ctx, &cfg, 100, 1_000), Err(ErrorCode::LockupPeriodNotElapsed));
    assert_eq!(unstake(&mut ctx, &cfg, 100, 4_599), Err(ErrorCode::LockupPeriodNotElapsed));
    assert_eq!(ctx, before);
}

#[test]
fn unstake_at_the_boundary_succeeds() {
    let cfg = Config::default();
    let mut ctx = Unstake {
        trader_account: TraderAccount { last_stake_timestamp: 1_000, ..trader(500) },
        global_state: global(800),
    };
    assert_eq!(unstake(&mut ctx, &cfg, 100, 4_600), Ok(()));
    assert_eq!(ctx.trader_account.staked_amount, 400);
    assert_eq!(ctx.global_state.total_staked, 700);
    assert_eq!(unstake(&mut ctx, &cfg, 400, 1_000_000), Ok(()));
    assert_eq!(ctx.trader_account.staked_amount, 0);
    assert_eq!(ctx.global_state.total_staked, 300);
}

#[test]
fn unstake_lockup_is_judged_before_the_amount() {
    let cfg = Config::default();
    let mut ctx = Unstake {
        trader_account: TraderAccount { last_stake_timestamp: 1_000, ..trader(500) },
        global_state: global(800),
    };
    assert_eq!(unstake(&mut ctx, &cfg, 501, 4_599), Err(ErrorCode::LockupPeriodNotElapsed));
    assert_eq!(unstake(&mut ctx, &cfg, 501, 4_600), Err(ErrorCode::InsufficientStake));
}

#[test]
fn unstake_more_than_staked_is_refused() {
    let cfg = Config::default();
    let before = Unstake { trader_account: trader(500), global_state: global(800) };
    let mut ctx = before;
    assert_eq!(unstake(&mut ctx, &cfg, 501, 3_600), Err(ErrorCode::InsufficientStake));
    assert_eq!(ctx, before);
}

#[test]
fn unstake_more_than_the_total_underflows() {
    let cfg = Config::default();
    let before = Unstake { trader_account: trader(500), global_state: global(499) };
    let mut ctx = before;
    assert_eq!(unstake(&mut ctx, &cfg, 500, 3_600), Err(ErrorCode::ArithmeticUnderflow));
    assert_eq!(ctx, before);
}

#[test]
fn unstake_lockup_near_the_end_of_time_does_not_wrap() {
    let cfg = Config::default();
    let mut ctx = Unstake {
        trader_account: TraderAccount { last_stake_timestamp: i64::MAX, ..trader(500) },
        global_state: global(500),
    };
    assert_eq!(unstake(&mut ctx, &cfg, 1, i64::MAX), Err(ErrorCode::LockupPeriodNotElapsed));
    let open = Config { lockup_period: 0, ..cfg };
    assert_eq!(unstake(&mut ctx, &open, 1, i64::MAX), Ok(()));
}
