use flash_bridge::reserve::{Config, ErrorCode, ReserveAsset};

fn sample_config() -> Config {
    Config::initialize_config([1u8; 32], [2u8; 32], 10_000, 100_000, 50_000, ReserveAsset::BTC)
}

#[test]
fn initialize_config_sets_bootstrap_state() {
    let config = sample_config();
    assert_eq!(config.authority, [1u8; 32]);
    assert_eq!(config.mint, [2u8; 32]);
    assert_eq!(config.max_mint_per_tx, 10_000);
    assert!(!config.paused);
    assert_eq!(config.total_minted, 0);
    assert_eq!(config.total_burned, 0);
    assert_eq!(config.btc_reserve, 100_000);
    assert_eq!(config.zec_reserve, 50_000);
    assert_eq!(config.bootstrap_btc, 100_000);
    assert_eq!(config.bootstrap_zec, 50_000);
    assert_eq!(config.reserve_asset, ReserveAsset::BTC);
}

#[test]
fn mint_moves_counter_within_reserve() {
    let mut config = sample_config();
    assert_eq!(config.mint_zenzec(5_000), Ok(()));
    assert_eq!(config.total_minted, 5_000);
    assert_eq!(config.available_capacity(), 95_000);
}

#[test]
fn mint_rejections_are_state_preserving() {
    let mut config = sample_config();
    assert_eq!(config.mint_zenzec(0), Err(ErrorCode::InvalidAmount));
    assert_eq!(config.mint_zenzec(10_001), Err(ErrorCode::AmountExceedsMax));
    assert_eq!(config.total_minted, 0);

    config.set_paused(true);
    assert_eq!(config.mint_zenzec(5_000), Err(ErrorCode::BridgePaused));
    config.set_paused(false);

    // drain the reserve in allowed steps, then overrun it
    config.set_max_mint(100_000);
    assert_eq!(config.mint_zenzec(100_000), Ok(()));
    assert_eq!(config.mint_zenzec(1), Err(ErrorCode::InsufficientReserve));
    assert_eq!(config.total_minted, 100_000);
    assert_eq!(config.available_capacity(), 0);
}

#[test]
fn reserve_asset_selects_backing_pool() {
    let mut config = Config::initialize_config(
        [1u8; 32],
        [2u8; 32],
        100_000,
        100_000,
        50_000,
        ReserveAsset::ZEC,
    );
    assert_eq!(config.available_capacity(), 50_000);
    assert_eq!(config.mint_zenzec(60_000), Err(ErrorCode::InsufficientReserve));
    assert_eq!(config.mint_zenzec(50_000), Ok(()));
}

#[test]
fn burn_requires_positive_amount() {
    let mut config = sample_config();
    assert_eq!(config.burn_zenzec(0), Err(ErrorCode::InvalidAmount));
    assert_eq!(config.burn_zenzec(123), Ok(()));
    assert_eq!(config.total_burned, 123);
}

#[test]
fn burn_counter_saturates_instead_of_wrapping() {
    let mut config = sample_config();
    assert_eq!(config.burn_zenzec(u64::MAX), Ok(()));
    assert_eq!(config.burn_zenzec(10), Ok(()));
    assert_eq!(config.total_burned, u64::MAX);
}

#[test]
fn burn_and_emit_returns_swap_event() {
    let mut config = sample_config();
    let event = config.burn_and_emit([7u8; 32], 500, 1234).unwrap();
    assert_eq!(event.user, [7u8; 32]);
    assert_eq!(event.amount, 500);
    assert_eq!(event.timestamp, 1234);
    assert_eq!(config.total_burned, 500);
    assert!(config.burn_and_emit([7u8; 32], 0, 1234).is_err());
}

#[test]
fn burn_for_btc_carries_address_opaquely() {
    let mut config = sample_config();
    let address = b"ciphertext-or-address".to_vec();
    let event = config.burn_for_btc([7u8; 32], 900, address.clone(), true, 77).unwrap();
    assert_eq!(event.user, [7u8; 32]);
    assert_eq!(event.amount, 900);
    assert_eq!(event.btc_address_hash, address);
    assert!(event.encrypted);
    assert_eq!(event.timestamp, 77);
    assert_eq!(config.total_burned, 900);
}

#[test]
fn burn_for_btc_respects_pause_flag() {
    let mut config = sample_config();
    config.set_paused(true);
    assert_eq!(
        config.burn_for_btc([7u8; 32], 900, b"addr".to_vec(), false, 0).unwrap_err(),
        ErrorCode::BridgePaused
    );
    assert_eq!(config.total_burned, 0);
}

#[test]
fn reserve_updates_accumulate() {
    let mut config = sample_config();
    config.update_btc_reserve(1_000);
    assert_eq!(config.btc_reserve, 101_000);
    config.update_zec_reserve(2_000);
    assert_eq!(config.zec_reserve, 52_000);
    config.update_btc_reserve(u64::MAX);
    assert_eq!(config.btc_reserve, u64::MAX);
}

#[test]
fn commit_mint_enforces_accounting_atomically() {
    let mut config = sample_config();
    assert_eq!(config.commit_mint(10_000), Ok(()));
    assert_eq!(config.total_minted, 10_000);
    assert_eq!(config.commit_mint(0), Err(ErrorCode::InvalidAmount));
    assert_eq!(config.total_minted, 10_000);
}
