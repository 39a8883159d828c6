use zklr::{provide_liquidity, Config, ErrorCode, GlobalState, LiquidityAccount, ProvideLiquidity};

fn provider(priority: bool, provided: u64) -> LiquidityAccount {
    LiquidityAccount {
        lp: [3u8; 32],
        liquidity_provided: provided,
        is_priority_pool: priority,
        reward_balance: 0,
        lock_timestamp: 1_000,
        trade_volume: 5,
    }
}

fn accounts(priority: bool, provided: u64, total: u64) -> ProvideLiquidity {
    ProvideLiquidity {
        lp_account: provider(priority, provided),
        global_state: GlobalState { admin: [1u8; 32], total_staked: 77, total_liquidity: total },
    }
}

#[test]
fn priority_pool_deposit_earns_ten_percent() {
    let cfg = Config::default();
    let mut ctx = accounts(true, 0, 500);
    assert_eq!(provide_liquidity(&mut ctx, &cfg, 1_000, 40, 87_400), Ok(()));
    assert_eq!(
        ctx.lp_account,
        LiquidityAccount {
            liquidity_provided: 1_100,
            reward_balance: 100,
            trade_volume: 45,
            ..provider(true, 0)
        }
    );
    assert_eq!(ctx.global_state.total_liquidity, 1_600);
    assert_eq!(ctx.global_state.total_staked, 77);
    assert_eq!(ctx.lp_account.lock_timestamp, 1_000);
}

#[test]
fn bonus_rounds_down() {
    let cfg = Config::default();
    let mut ctx = accounts(true, 0, 0);
    assert_eq!(provide_liquidity(&mut ctx, &cfg, 1_009, 0, 87_400), Ok(()));
    assert_eq!(ctx.lp_account.liquidity_provided, 1_109);
    assert_eq!(ctx.lp_account.reward_balance, 100);
    let mut ctx = accounts(true, 0, 0);
    assert_eq!(provide_liquidity(&mut ctx, &cfg, 9, 0, 87_400), Ok(()));
    assert_eq!(ctx.lp_account.liquidity_provided, 9);
    assert_eq!(ctx.lp_account.reward_balance, 0);
}

#[test]
fn ordinary_pool_deposit_earns_no_bonus() {
    let cfg = Config::default();
    let mut ctx = accounts(false, 200, 500);
    assert_eq!(provide_liquidity(&mut ctx, &cfg, 1_000, 0, 87_400), Ok(()));
    assert_eq!(
        ctx.lp_account,
        LiquidityAccount { liquidity_provided: 1_200, ..provider(false, 200) }
    );
    assert_eq!(ctx.global_state.total_liquidity, 1_500);
}

#[test]
fn deposit_inside_the_lock_window_is_refused() {
    let cfg = Config::default();
    let before = accounts(true, 0, 0);
    let mut ctx = before;
    assert_eq!(
        provide_liquidity(&mut ctx, &cfg, 1_000, 0, 87_399),
        Err(ErrorCode::LiquidityLockNotElapsed)
    );
    assert_eq!(ctx, before);
    assert_eq!(provide_liquidity(&mut ctx, &cfg, 1_000, 0, 87_400), Ok(()));
}

#[test]
fn deposits_after_the_window_are_never_locked_again() {
    let cfg = Config::default();
    let mut ctx = accounts(false, 0, 0);
    assert_eq!(provide_liquidity(&mut ctx, &cfg, 10, 0, 87_400), Ok(()));
    assert_eq!(provide_liquidity(&mut ctx, &cfg, 10, 0, 87_400), Ok(()));
    assert_eq!(provide_liquidity(&mut ctx, &cfg, 10, 0, 87_401), Ok(()));
    assert_eq!(ctx.lp_account.liquidity_provided, 30);
    assert_eq!(ctx.global_state.total_liquidity, 30);
    assert_eq!(ctx.lp_account.lock_timestamp, 1_000);
}

#[test]
fn deposit_that_overflows_changes_nothing() {
    let cfg = Config::default();
    let cases = [
        (accounts(true, 0, 0), u64::MAX / 10 + 1, 0u64),
        (accounts(false, 1, 0), u64::MAX, 0),
        (accounts(false, 0, 1), u64::MAX, 0),
        (accounts(false, 0, 0), 1, u64::MAX - 4),
    ];
    for (before, amount, volume) in cases {
        let mut ctx = before;
        assert_eq!(
            provide_liquidity(&mut ctx, &cfg, amount, volume, 87_400),
            Err(ErrorCode::ArithmeticOverflow)
        );
        assert_eq!(ctx, before);
    }
    let one_percent = Config { priority_pool_bonus: 1, ..cfg };
    let before = accounts(true, 0, 0);
    let mut ctx = before;
    assert_eq!(
        provide_liquidity(&mut ctx, &one_percent, u64::MAX, 0, 87_400),
        Err(ErrorCode::ArithmeticOverflow)
    );
    assert_eq!(ctx, before);
    let mut largest = accounts(true, 0, 0);
    assert_eq!(provide_liquidity(&mut largest, &cfg, u64::MAX / 10, 0, 87_400), Ok(()));
    assert_eq!(largest.lp_account.reward_balance, u64::MAX / 10 / 10);
    let mut rewards = accounts(true, 0, 0);
    rewards.lp_account.reward_balance = u64::MAX;
    let before = rewards;
    assert_eq!(
        provide_liquidity(&mut rewards, &cfg, 10, 0, 87_400),
        Err(ErrorCode::ArithmeticOverflow)
    );
    assert_eq!(rewards, before);
    let mut fits = accounts(false, 0, 0);
    assert_eq!(provide_liquidity(&mut fits, &cfg, u64::MAX, u64::MAX - 5, 87_400), Ok(()));
    assert_eq!(fits.lp_account.trade_volume, u64::MAX);
}
