use pump_token::address::Address;
use pump_token::base_token::BaseToken;
use pump_token::errors::TokenError;
use pump_token::mint::{MintConfig, MintRecord, PROTOCOL_FEE_RATE_BPS};

fn addr(value: u64) -> Address {
    Address { value }
}

fn initialized_token(admin: Address) -> BaseToken {
    let mut token = BaseToken::new();
    token
        .initialize_token(
            addr(900),
            admin,
            0,
            6,
            b"Pump".to_vec(),
            b"PMP".to_vec(),
            b"u".to_vec(),
        )
        .unwrap();
    token
}

/// A sale as in the reference scenario: fixed price 100, amounts 1..=1000,
/// window [0, 1000], fee 100 bps.
fn scenario_sale(token: &BaseToken) -> MintConfig {
    let (config, _) = MintConfig::initialize_mint(
        token,
        addr(500),
        token.admin,
        100,
        100,
        1,
        1000,
        0,
        1000,
        10,
        10,
    )
    .unwrap();
    config
}

#[test]
fn initialize_mint_sets_every_field() {
    let token = initialized_token(addr(7));
    let (config, event) = MintConfig::initialize_mint(
        &token,
        addr(500),
        addr(7),
        100,
        200,
        1,
        1000,
        50,
        5000,
        30,
        20,
    )
    .unwrap();
    assert_eq!(config.token, addr(500));
    assert_eq!(config.min_price, 100);
    assert_eq!(config.max_price, 200);
    assert_eq!(config.min_amount, 1);
    assert_eq!(config.max_amount, 1000);
    assert_eq!(config.start_time, 50);
    assert_eq!(config.end_time, 5000);
    assert_eq!(config.liquidity_percentage, 30);
    assert_eq!(config.staking_percentage, 20);
    assert!(config.is_initialized);
    assert_eq!(config.total_minted, 0);
    assert_eq!(config.fee_rate, PROTOCOL_FEE_RATE_BPS);
    assert_eq!(config.fee_rate, 100);
    assert!(config.is_active);
    assert_eq!(event.token, addr(500));
    assert_eq!(event.min_price, 100);
    assert_eq!(event.max_price, 200);
    assert_eq!(event.max_amount, 1000);
    assert_eq!(event.start_time, 50);
    assert_eq!(event.end_time, 5000);
}

#[test]
fn initialize_mint_rejects_zero_or_inverted_prices() {
    let token = initialized_token(addr(7));
    let r = MintConfig::initialize_mint(&token, addr(500), addr(7), 0, 100, 1, 10, 0, 10, 0, 0);
    assert_eq!(r.unwrap_err(), TokenError::InvalidPrice);
    let r = MintConfig::initialize_mint(&token, addr(500), addr(7), 100, 99, 1, 10, 0, 10, 0, 0);
    assert_eq!(r.unwrap_err(), TokenError::InvalidPrice);
}

#[test]
fn initialize_mint_rejects_bad_amount_bounds() {
    let token = initialized_token(addr(7));
    let r = MintConfig::initialize_mint(&token, addr(500), addr(7), 1, 1, 10, 10, 0, 10, 0, 0);
    assert_eq!(r.unwrap_err(), TokenError::InvalidAmount);
}

#[test]
fn initialize_mint_rejects_empty_window() {
    let token = initialized_token(addr(7));
    let r = MintConfig::initialize_mint(&token, addr(500), addr(7), 1, 1, 1, 10, 10, 10, 0, 0);
    assert_eq!(r.unwrap_err(), TokenError::InvalidTime);
}

#[test]
fn initialize_mint_rejects_percentages_over_100() {
    let token = initialized_token(addr(7));
    let r = MintConfig::initialize_mint(&token, addr(500), addr(7), 1, 1, 1, 10, 0, 10, 60, 50);
    assert_eq!(r.unwrap_err(), TokenError::InvalidPercentage);
    // 255 + 255 must not wrap into an accepted sum
    let r = MintConfig::initialize_mint(&token, addr(500), addr(7), 1, 1, 1, 10, 0, 10, 255, 255);
    assert_eq!(r.unwrap_err(), TokenError::InvalidPercentage);
    let r = MintConfig::initialize_mint(&token, addr(500), addr(7), 1, 1, 1, 10, 0, 10, 60, 40);
    assert!(r.is_ok());
}

#[test]
fn initialize_mint_requires_admin() {
    let token = initialized_token(addr(7));
    let r = MintConfig::initialize_mint(&token, addr(500), addr(8), 1, 1, 1, 10, 0, 10, 0, 0);
    assert_eq!(r.unwrap_err(), TokenError::Unauthorized);
}

#[test]
fn purchase_scenario_splits_payment_exactly() {
    // price 100, fee 100 bps: purchase(500) pays 50000, fee 500, net 49500
    let token = initialized_token(addr(7));
    let mut config = scenario_sale(&token);
    let mut record = MintRecord::new(addr(500), addr(21), 10);
    let (net, event) = config.mint(&mut record, 10, 500, 100).unwrap();
    assert_eq!(net, 49_500);
    assert_eq!(event.user, addr(21));
    assert_eq!(event.amount, 500);
    assert_eq!(event.paid_amount, 50_000);
    assert_eq!(event.fee_amount, 500);
    assert_eq!(config.total_minted, 500);
    assert_eq!(record.amount, 500);
    assert_eq!(record.paid_amount, 50_000);
    assert_eq!(record.fee_amount, 500);
    assert_eq!(record.mint_time, 10);
    assert!(!record.is_claimed);
}

#[test]
fn purchase_fee_rounds_down_and_round_trips() {
    let token = initialized_token(addr(7));
    let (mut config, _) = MintConfig::initialize_mint(
        &token,
        addr(500),
        addr(7),
        1,
        1000,
        1,
        1000,
        0,
        1000,
        0,
        0,
    )
    .unwrap();
    let mut record = MintRecord::new(addr(500), addr(21), 0);
    // paid = 3 * 33 = 99; fee = floor(99 * 100 / 10000) = 0; net = 99
    let (net, event) = config.mint(&mut record, 0, 3, 33).unwrap();
    assert_eq!(event.paid_amount, 99);
    assert_eq!(event.fee_amount, 0);
    assert_eq!(net, 99);
    assert_eq!(event.fee_amount + net, event.paid_amount);
    // paid = 7 * 29 = 203; fee = floor(203 * 100 / 10000) = 2; net = 201
    let (net, event) = config.mint(&mut record, 0, 7, 29).unwrap();
    assert_eq!(event.paid_amount, 203);
    assert_eq!(event.fee_amount, 2);
    assert_eq!(net, 201);
    assert_eq!(event.fee_amount + net, event.paid_amount);
}

#[test]
fn purchase_accumulates_on_the_same_receipt() {
    let token = initialized_token(addr(7));
    let mut config = scenario_sale(&token);
    let mut record = MintRecord::new(addr(500), addr(21), 0);
    config.mint(&mut record, 1, 200, 100).unwrap();
    config.mint(&mut record, 2, 300, 100).unwrap();
    assert_eq!(record.amount, 500);
    assert_eq!(record.paid_amount, 50_000);
    assert_eq!(record.fee_amount, 500);
    assert_eq!(record.mint_time, 2);
    assert_eq!(config.total_minted, 500);
}

#[test]
fn purchase_outside_the_window_fails() {
    let token = initialized_token(addr(7));
    let mut config = scenario_sale(&token); // window [0, 1000]
    let mut record = MintRecord::new(addr(500), addr(21), 0);
    assert_eq!(config.mint(&mut record, -1, 10, 100).unwrap_err(), TokenError::MintNotStarted);
    assert_eq!(config.mint(&mut record, 1001, 10, 100).unwrap_err(), TokenError::MintEnded);
    assert_eq!(config.total_minted, 0);
}

#[test]
fn purchase_against_inactive_sale_fails() {
    let token = initialized_token(addr(7));
    let mut config = scenario_sale(&token);
    config.is_active = false;
    let mut record = MintRecord::new(addr(500), addr(21), 0);
    assert_eq!(config.mint(&mut record, 10, 10, 100).unwrap_err(), TokenError::MintNotActive);
}

#[test]
fn purchase_amount_bounds_are_checked() {
    let token = initialized_token(addr(7));
    let (mut config, _) = MintConfig::initialize_mint(
        &token,
        addr(500),
        addr(7),
        100,
        100,
        10,
        1000,
        0,
        1000,
        0,
        0,
    )
    .unwrap();
    let mut record = MintRecord::new(addr(500), addr(21), 0);
    assert_eq!(config.mint(&mut record, 1, 9, 100).unwrap_err(), TokenError::AmountTooSmall);
    assert_eq!(config.mint(&mut record, 1, 1001, 100).unwrap_err(), TokenError::AmountTooLarge);
}

#[test]
fn purchase_over_the_cap_fails_and_changes_nothing() {
    // total_minted = 900, amount = 200, max_amount = 1000
    let token = initialized_token(addr(7));
    let mut config = scenario_sale(&token);
    let mut record = MintRecord::new(addr(500), addr(21), 0);
    config.mint(&mut record, 1, 900, 100).unwrap();
    assert_eq!(config.total_minted, 900);
    let config_before = config;
    let record_before = record;
    let r = config.mint(&mut record, 2, 200, 100);
    assert_eq!(r.unwrap_err(), TokenError::ExceedMaxAmount);
    assert_eq!(config, config_before);
    assert_eq!(record, record_before);
    // filling the sale exactly to the cap still works
    assert!(config.mint(&mut record, 3, 100, 100).is_ok());
    assert_eq!(config.total_minted, 1000);
}

#[test]
fn purchase_price_outside_bounds_fails() {
    let token = initialized_token(addr(7));
    let (mut config, _) = MintConfig::initialize_mint(
        &token,
        addr(500),
        addr(7),
        100,
        200,
        1,
        1000,
        0,
        1000,
        0,
        0,
    )
    .unwrap();
    let mut record = MintRecord::new(addr(500), addr(21), 0);
    assert_eq!(config.mint(&mut record, 1, 10, 99).unwrap_err(), TokenError::InvalidPrice);
    assert_eq!(config.mint(&mut record, 1, 10, 201).unwrap_err(), TokenError::InvalidPrice);
    assert!(config.mint(&mut record, 1, 10, 200).is_ok());
}

#[test]
fn purchase_when_payment_would_wrap_fails() {
    let token = initialized_token(addr(7));
    let (mut config, _) = MintConfig::initialize_mint(
        &token,
        addr(500),
        addr(7),
        1,
        u64::MAX,
        1,
        u64::MAX,
        0,
        1000,
        0,
        0,
    )
    .unwrap();
    let mut record = MintRecord::new(addr(500), addr(21), 0);
    let r = config.mint(&mut record, 1, u64::MAX / 2, 3);
    assert_eq!(r.unwrap_err(), TokenError::InsufficientFunds);
    assert_eq!(config.total_minted, 0);
}

#[test]
fn purchase_after_claim_is_rejected() {
    let token = initialized_token(addr(7));
    let mut config = scenario_sale(&token);
    let mut record = MintRecord::new(addr(500), addr(21), 0);
    config.mint(&mut record, 1, 100, 100).unwrap();
    record.claim_mint().unwrap();
    let r = config.mint(&mut record, 2, 100, 100);
    assert_eq!(r.unwrap_err(), TokenError::AlreadyClaimed);
    assert_eq!(config.total_minted, 100);
}

#[test]
fn claim_mint_flips_the_flag_exactly_once() {
    let mut record = MintRecord::new(addr(500), addr(21), 0);
    assert!(record.claim_mint().is_ok());
    assert!(record.is_claimed);
    assert_eq!(record.claim_mint().unwrap_err(), TokenError::AlreadyClaimed);
    assert!(record.is_claimed);
}

#[test]
fn new_record_starts_empty() {
    let record = MintRecord::new(addr(500), addr(21), 44);
    assert_eq!(record.mint_config, addr(500));
    assert_eq!(record.buyer, addr(21));
    assert_eq!(record.user, addr(21));
    assert_eq!(record.amount, 0);
    assert_eq!(record.paid_amount, 0);
    assert_eq!(record.fee_amount, 0);
    assert!(!record.is_claimed);
    assert_eq!(record.created_at, 44);
    assert_eq!(record.mint_time, 44);
}
