use amm_core::{
    check_are_we_two_pools, create_pool, AccountKey, AmmConfig, ErrorCode, PoolState,
    TRADE_FLAT_FEE_DEFAULT,
};

fn key(id: u64) -> AccountKey {
    AccountKey { id }
}

#[test]
fn default_config_charges_the_flat_fee() {
    let cfg = AmmConfig::default();
    assert_eq!(cfg.trade_fee_flat, TRADE_FLAT_FEE_DEFAULT);
    assert_eq!(cfg.protocol_fee_rate, 0);
    assert_eq!(cfg.tick_spacing, 0);
}

#[test]
fn owner_is_authorized() {
    let mut cfg = AmmConfig::default();
    cfg.owner = key(7);
    assert_eq!(cfg.is_authorized(key(7), key(99)), Ok(()));
}

#[test]
fn expected_signer_is_authorized() {
    let mut cfg = AmmConfig::default();
    cfg.owner = key(7);
    assert_eq!(cfg.is_authorized(key(42), key(42)), Ok(()));
}

#[test]
fn stranger_is_not_authorized() {
    let mut cfg = AmmConfig::default();
    cfg.owner = key(7);
    assert_eq!(cfg.is_authorized(key(42), key(43)), Err(ErrorCode::NotApproved));
}

#[test]
fn pairing_check_accepts_a_valid_companion() {
    // The companion instruction sits later in the transaction, so this pool
    // is the long side (1).
    let r = check_are_we_two_pools(
        key(100),
        0,
        2,
        555,
        555,
        key(9),
        key(9),
        Some(key(200)),
        key(200),
    );
    assert_eq!(r, Ok((key(200), 1)));
}

#[test]
fn pairing_check_earlier_companion_makes_the_short_side() {
    let r = check_are_we_two_pools(
        key(100),
        3,
        1,
        555,
        555,
        key(9),
        key(9),
        Some(key(200)),
        key(200),
    );
    assert_eq!(r, Ok((key(200), 0)));
}

#[test]
fn pairing_check_rejects_self_reference() {
    // The companion index equals the current instruction's.
    let r = check_are_we_two_pools(
        key(100),
        2,
        2,
        555,
        555,
        key(9),
        key(9),
        Some(key(200)),
        key(200),
    );
    assert_eq!(r, Err(ErrorCode::NotApproved));
}

#[test]
fn pairing_check_rejects_wrong_discriminator() {
    let r = check_are_we_two_pools(
        key(100),
        0,
        2,
        556,
        555,
        key(9),
        key(9),
        Some(key(200)),
        key(200),
    );
    assert_eq!(r, Err(ErrorCode::NotApproved));
}

#[test]
fn pairing_check_rejects_foreign_program() {
    let r = check_are_we_two_pools(
        key(100),
        0,
        2,
        555,
        555,
        key(8),
        key(9),
        Some(key(200)),
        key(200),
    );
    assert_eq!(r, Err(ErrorCode::NotApproved));
}

#[test]
fn pairing_check_rejects_missing_pool_account() {
    let r = check_are_we_two_pools(key(100), 0, 2, 555, 555, key(9), key(9), None, key(200));
    assert_eq!(r, Err(ErrorCode::NotApproved));
}

#[test]
fn pairing_check_rejects_unexpected_pool_address() {
    let r = check_are_we_two_pools(
        key(100),
        0,
        2,
        555,
        555,
        key(9),
        key(9),
        Some(key(201)),
        key(200),
    );
    assert_eq!(r, Err(ErrorCode::NotApproved));
}

#[test]
fn pairing_check_rejects_the_same_pool_twice() {
    let r = check_are_we_two_pools(
        key(100),
        0,
        2,
        555,
        555,
        key(9),
        key(9),
        Some(key(100)),
        key(100),
    );
    assert_eq!(r, Err(ErrorCode::NotApproved));
}

#[test]
fn create_pool_writes_the_initial_state() {
    let pool = create_pool(
        1 << 64,
        1_700_000_000,
        -42,
        3,
        254,
        key(100),
        key(1),
        key(2),
        key(20),
        key(21),
        key(10),
        key(11),
        key(30),
        0,
        2,
        555,
        555,
        key(9),
        key(9),
        Some(key(200)),
        key(200),
    )
    .unwrap();
    assert_eq!(pool.sqrt_price_x64, 1 << 64);
    assert_eq!(pool.tick_current, -42);
    assert_eq!(pool.open_time, 1_700_000_000);
    assert_eq!(pool.leverage, 3);
    assert_eq!(pool.long_or_short, 1);
    assert_eq!(pool.other_pool_state, key(200));
    assert_eq!(pool.liquidity, 0);
    assert_eq!(pool.status, 0);
    assert_eq!(pool.curr_ratio, 0);
    assert_eq!(pool.price_on_last_rebalance, 1 << 64);
    assert_eq!(pool.leveraged_mint_0, None);
    assert_eq!(pool.leveraged_mint_1, None);
}

#[test]
fn create_pool_rejects_an_invalid_pairing() {
    let r = create_pool(
        1 << 64,
        0,
        0,
        1,
        254,
        key(100),
        key(1),
        key(2),
        key(20),
        key(21),
        key(10),
        key(11),
        key(30),
        2,
        2,
        555,
        555,
        key(9),
        key(9),
        Some(key(200)),
        key(200),
    );
    assert_eq!(r, Err(ErrorCode::NotApproved));
}

#[test]
fn initialized_pool_is_well_formed() {
    let pool = PoolState::initialize(
        1,
        1 << 64,
        0,
        0,
        key(1),
        key(10),
        key(11),
        key(2),
        key(20),
        key(21),
        key(3),
        key(4),
        0,
        1,
    );
    assert_eq!(pool.token_vault_0, key(10));
    assert_eq!(pool.token_vault_1, key(11));
    assert_eq!(pool.last_price, 1 << 64);
    assert_eq!(pool.value, 0);
}
