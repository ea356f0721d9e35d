use raydium_integration::{
    position_opened, proxy_open_position, proxy_swap, swap_executed, AccountId,
    DerivedPositionKeys, LiquidityDecreased, LiquidityIncreased, PoolView, ProxyOpenPosition,
    ProxySwap, TokenAccountView, UserConfig,
};

fn id(n: u128) -> AccountId {
    AccountId { hi: n, lo: n + 1 }
}

fn pool() -> PoolView {
    PoolView {
        key: id(10),
        amm_config: id(20),
        observation_key: id(30),
        token_vault_0: id(40),
        token_vault_1: id(50),
    }
}

#[test]
fn swap_event_reports_caller_expectation() {
    let ctx = ProxySwap {
        payer: id(60),
        user_cfg: UserConfig {
            owner: id(60),
            slippage_bps: 0,
        },
        pool_state: pool(),
        amm_config: id(20),
        observation_state: id(30),
        tick_array_pool_id: id(10),
    };
    let call = proxy_swap(&ctx, 5_000, 1_000_000, 0, true).unwrap();
    let ev = swap_executed(&ctx, &call, 1_700_000_000);
    assert_eq!(ev.user, id(60));
    assert_eq!(ev.pool, id(10));
    assert_eq!(ev.amount_in, 5_000);
    // The output field repeats the caller's expectation, not an
    // engine-confirmed amount: the record is observational.
    assert_eq!(ev.amount_out, 1_000_000);
    assert_eq!(ev.expected_amount, 1_000_000);
    assert_eq!(ev.slippage_bps, 500);
    assert!(ev.is_base_input);
    assert_eq!(ev.timestamp, 1_700_000_000);
}

#[test]
fn position_event_reports_bounds_and_caps() {
    let ctx = ProxyOpenPosition {
        payer: id(60),
        position_nft_mint: id(70),
        pool_state: pool(),
        protocol_position: id(80),
        tick_array_lower: id(81),
        tick_array_upper: id(82),
        personal_position: id(83),
        derived: DerivedPositionKeys {
            protocol_position: id(80),
            tick_array_lower: id(81),
            tick_array_upper: id(82),
            personal_position: id(83),
        },
        token_account_0: TokenAccountView {
            key: id(90),
            mint: id(100),
        },
        token_account_1: TokenAccountView {
            key: id(91),
            mint: id(101),
        },
        token_vault_0: TokenAccountView {
            key: id(40),
            mint: id(100),
        },
        token_vault_1: TokenAccountView {
            key: id(50),
            mint: id(101),
        },
        vault_0_mint: id(100),
        vault_1_mint: id(101),
    };
    let call = proxy_open_position(&ctx, -60, 60, -600, 600, 1_000, 500, 700, false, None).unwrap();
    let ev = position_opened(&ctx, &call, 42);
    assert_eq!(ev.user, id(60));
    assert_eq!(ev.pool, id(10));
    assert_eq!(ev.position_nft, id(70));
    assert_eq!(ev.tick_lower, -60);
    assert_eq!(ev.tick_upper, 60);
    assert_eq!(ev.liquidity, 1_000);
    assert_eq!(ev.amount_0, 500);
    assert_eq!(ev.amount_1, 700);
    assert_eq!(ev.timestamp, 42);
}

#[test]
fn liquidity_events_hold_their_fields() {
    let inc = LiquidityIncreased {
        user: id(1),
        position_nft: id(2),
        liquidity_added: 9,
        amount_0_added: 3,
        amount_1_added: 4,
        timestamp: 5,
    };
    assert_eq!(inc.liquidity_added, 9);
    let dec = LiquidityDecreased {
        user: id(1),
        position_nft: id(2),
        liquidity_removed: 9,
        amount_0_removed: 3,
        amount_1_removed: 4,
        timestamp: 5,
    };
    assert_eq!(dec.amount_1_removed, 4);
}
