use zklr::{
    batch_stake_and_verify, provide_liquidity, reveal_trade, stake, unstake, verify_priority,
    BatchStakeAndVerify, Config, GlobalState, Initialize, LiquidityAccount, ProvideLiquidity,
    RevealTrade, Stake, TraderAccount, Unstake, VerifyPriority,
};

fn fresh_trader(id: u8) -> TraderAccount {
    TraderAccount {
        trader: [id; 32],
        staked_amount: 0,
        is_verified: false,
        proof_expiry: 0,
        last_proof_update: 0,
        zk_proof_hash: [0u8; 32],
        invalid_proof_attempts: 0,
        commitment: [0u8; 32],
        last_stake_timestamp: 0,
        speed_multiplier: 0,
        trade_volume: 0,
    }
}

fn fresh_provider(id: u8, priority: bool) -> LiquidityAccount {
    LiquidityAccount {
        lp: [id; 32],
        liquidity_provided: 0,
        is_priority_pool: priority,
        reward_balance: 0,
        lock_timestamp: 0,
        trade_volume: 0,
    }
}

fn check(global: &GlobalState, traders: &[TraderAccount], providers: &[LiquidityAccount]) {
    let staked: u64 = traders.iter().map(|t| t.staked_amount).sum();
    let provided: u64 = providers.iter().map(|p| p.liquidity_provided).sum();
    assert_eq!(global.total_staked, staked);
    assert_eq!(global.total_liquidity, provided);
}

#[test]
fn totals_mirror_the_accounts_after_every_operation() {
    let cfg = Config::default();
    let mut init = Initialize {
        global_state: GlobalState { admin: [0u8; 32], total_staked: 9, total_liquidity: 9 },
    };
    assert!(zklr::initialize(&mut init, [1u8; 32]).is_ok());
    let mut global = init.global_state;
    let mut traders = [fresh_trader(1), fresh_trader(2)];
    let mut providers = [fresh_provider(3, true), fresh_provider(4, false)];
    check(&global, &traders, &providers);

    let mut ctx = Stake { trader_account: traders[0], global_state: global };
    assert!(stake(&mut ctx, 1_000, 10).is_ok());
    traders[0] = ctx.trader_account;
    global = ctx.global_state;
    check(&global, &traders, &providers);

    let mut ctx = BatchStakeAndVerify { trader_account: traders[1], global_state: global };
    assert!(batch_stake_and_verify(&mut ctx, &cfg, 5_000, vec![1u8; 16], [0u8; 32], 3, 20).is_ok());
    traders[1] = ctx.trader_account;
    global = ctx.global_state;
    check(&global, &traders, &providers);
    assert_eq!(global.total_staked, 1_000 + 4_950);

    let mut ctx = BatchStakeAndVerify { trader_account: traders[0], global_state: global };
    assert!(batch_stake_and_verify(&mut ctx, &cfg, 5_000, vec![1u8; 2], [0u8; 32], 3, 20).is_err());
    traders[0] = ctx.trader_account;
    global = ctx.global_state;
    check(&global, &traders, &providers);

    let mut ctx = VerifyPriority { trader_account: traders[0], global_state: global };
    assert!(verify_priority(&mut ctx, &cfg, vec![1u8; 16], [9u8; 32], 3, 30).is_ok());
    traders[0] = ctx.trader_account;
    global = ctx.global_state;
    check(&global, &traders, &providers);

    for now in 60..63 {
        let mut ctx = RevealTrade { trader_account: traders[0], global_state: global };
        assert!(reveal_trade(&mut ctx, &cfg, vec![2u8; 4], vec![1u8; 16], now).is_err());
        traders[0] = ctx.trader_account;
        global = ctx.global_state;
        check(&global, &traders, &providers);
    }
    assert_eq!(traders[0].staked_amount, 792);

    for now in 70..73 {
        let mut ctx = VerifyPriority { trader_account: traders[1], global_state: global };
        assert!(verify_priority(&mut ctx, &cfg, vec![1u8; 9], [9u8; 32], 3, now).is_err());
        traders[1] = ctx.trader_account;
        global = ctx.global_state;
        check(&global, &traders, &providers);
    }
    assert_eq!(traders[1].staked_amount, 3_960);

    let mut ctx = Unstake { trader_account: traders[1], global_state: global };
    assert!(unstake(&mut ctx, &cfg, 960, 3_620).is_ok());
    traders[1] = ctx.trader_account;
    global = ctx.global_state;
    check(&global, &traders, &providers);

    let mut ctx = Unstake { trader_account: traders[0], global_state: global };
    assert!(unstake(&mut ctx, &cfg, 793, 3_620).is_err());
    traders[0] = ctx.trader_account;
    global = ctx.global_state;
    check(&global, &traders, &providers);

    for (i, amount) in [(0usize, 1_000u64), (1, 1_000), (0, 55)] {
        let mut ctx = ProvideLiquidity { lp_account: providers[i], global_state: global };
        assert!(provide_liquidity(&mut ctx, &cfg, amount, 1, 86_400).is_ok());
        providers[i] = ctx.lp_account;
        global = ctx.global_state;
        check(&global, &traders, &providers);
    }
    assert_eq!(global.total_liquidity, 1_100 + 1_000 + 60);
    assert_eq!(global.total_staked, 792 + 3_000);
}
