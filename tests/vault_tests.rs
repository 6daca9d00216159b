use delta_neutral_vault::instructions::{
    close_position, collect_fees, deposit, emergency_stop, initialize_vault, open_position,
    rebalance, resume_vault, update_vault_params, withdraw, FeeCollection,
};
use delta_neutral_vault::utils::{
    calculate_delta_percentage, calculate_hedge_amount, calculate_management_fees,
    calculate_performance_fees, calculate_share_price, calculate_shares_to_mint,
    calculate_withdrawal_amount, should_rebalance,
};
use delta_neutral_vault::price::{format_price, parse_price};
use delta_neutral_vault::{
    DeltaNeutralVaultError, HedgeAction, HedgeCalculation, PositionDirection, VaultState,
};

const ADMIN: [u8; 32] = [7u8; 32];

fn new_vault(target_leverage: u8, rebalance_threshold: u16, max_slippage: u16) -> VaultState {
    initialize_vault(ADMIN, target_leverage, rebalance_threshold, max_slippage, 0)
        .expect("Failed to initialize vault")
}

fn imbalanced_vault() -> VaultState {
    let mut v = new_vault(2, 100, 50);
    v.total_assets = 10_000_000;
    v.total_shares = 10_000_000;
    v.long_position = 1_000_000;
    v.short_position = -800_000;
    v
}

#[test]
fn test_calculate_hedge_amount() {
    let (amount, should_short) = calculate_hedge_amount(1000, -500, 0).unwrap();
    assert_eq!(amount, 500);
    assert_eq!(should_short, true);

    let (amount, should_short) = calculate_hedge_amount(500, -1000, 0).unwrap();
    assert_eq!(amount, 500);
    assert_eq!(should_short, false);
}

#[test]
fn test_calculate_shares_to_mint() {
    let shares = calculate_shares_to_mint(1000, 0, 0).unwrap();
    assert_eq!(shares, 1000);

    let shares = calculate_shares_to_mint(1000, 1000, 1000).unwrap();
    assert_eq!(shares, 1000);
}

#[test]
fn test_format_parse_price() {
    let price = 1_500_000;
    let formatted = format_price(price);
    assert_eq!(formatted, "1.500000");

    let parsed = parse_price("1.5").unwrap();
    assert_eq!(parsed, 1_500_000);
}

#[test]
fn test_initialize_vault() {
    let vault_state = new_vault(2, 100, 50);
    assert_eq!(vault_state.admin, ADMIN);
    assert_eq!(vault_state.target_leverage, 2);
    assert_eq!(vault_state.rebalance_threshold, 100);
    assert_eq!(vault_state.max_slippage, 50);
    assert_eq!(vault_state.total_assets, 0);
    assert_eq!(vault_state.total_shares, 0);
    assert_eq!(vault_state.emergency_stop, false);
}

#[test]
fn test_deposit_withdraw() {
    let mut vault_state = new_vault(2, 100, 50);

    let deposit_amount = 100_000_000;
    deposit(&mut vault_state, deposit_amount).expect("Failed to deposit");
    assert_eq!(vault_state.total_assets, deposit_amount);
    assert_eq!(vault_state.total_shares, deposit_amount);
    assert_eq!(vault_state.net_deposits, deposit_amount as i64);

    let second_deposit = 200_000_000;
    deposit(&mut vault_state, second_deposit).expect("Failed to make second deposit");
    assert_eq!(vault_state.total_assets, deposit_amount + second_deposit);
    assert_eq!(vault_state.total_shares, deposit_amount + second_deposit);
}

#[test]
fn test_emergency_stop() {
    let mut vault_state = new_vault(2, 100, 50);
    emergency_stop(&mut vault_state, &ADMIN).unwrap();
    assert!(vault_state.emergency_stop, "Emergency stop should be active");

    let result = deposit(&mut vault_state, 100_000_000);
    assert!(result.is_err(), "Deposit should fail during emergency stop");
}

#[test]
fn test_fee_calculation() {
    let total_assets = 1_000_000_000;
    let fee_rate_bps = 200;
    let time_elapsed = 365 * 24 * 3600;

    let fees = calculate_management_fees(total_assets, fee_rate_bps, time_elapsed).unwrap();
    assert_eq!(fees, 20_000_000);

    let total_value = 1_200_000_000;
    let net_deposits = 1_000_000_000i64;
    let performance_fee_bps = 1000;

    let performance_fees =
        calculate_performance_fees(total_value, net_deposits, performance_fee_bps).unwrap();
    assert_eq!(performance_fees, 20_000_000);

    let share_price = calculate_share_price(total_value, 1_000_000_000).unwrap();
    assert_eq!(share_price, 1_200_000);
}

#[test]
fn test_delta_calculation() {
    let long_position = 1_000_000i64;
    let short_position = -800_000i64;
    let total_value = 10_000_000u64;

    let delta_percentage =
        calculate_delta_percentage(long_position, short_position, total_value).unwrap();
    assert_eq!(delta_percentage, 200);

    let should = should_rebalance(long_position, short_position, total_value, 100).unwrap();
    assert!(should, "Should trigger rebalance with 2% delta and 1% threshold");

    let should_not = should_rebalance(long_position, short_position, total_value, 300).unwrap();
    assert!(!should_not, "Should not trigger rebalance with 2% delta and 3% threshold");
}

#[test]
fn bootstrap_deposit_mints_one_to_one() {
    let mut v = new_vault(2, 100, 50);
    assert_eq!(deposit(&mut v, 100_000_000), Ok(100_000_000));
    assert_eq!(v.calculate_share_price(), Ok(1_000_000));
}

#[test]
fn proportional_mint_keeps_price() {
    let mut v = new_vault(2, 100, 50);
    v.total_assets = 100_000_000;
    v.total_shares = 100_000_000;
    assert_eq!(deposit(&mut v, 200_000_000), Ok(200_000_000));
    assert_eq!(v.total_assets, 300_000_000);
    assert_eq!(v.total_shares, 300_000_000);
    assert_eq!(v.calculate_share_price(), Ok(1_000_000));
}

#[test]
fn deposit_mints_floor_of_proportion() {
    let mut v = new_vault(2, 100, 50);
    v.total_assets = 3;
    v.total_shares = 2;
    assert_eq!(deposit(&mut v, 2), Ok(1));
    assert_eq!(v.total_assets, 5);
    assert_eq!(v.total_shares, 3);
}

#[test]
fn round_trip_never_returns_more_than_deposited() {
    let mut v = new_vault(2, 100, 50);
    v.total_assets = 1_000_003;
    v.total_shares = 999_999;
    let minted = deposit(&mut v, 777_777).unwrap();
    let back = withdraw(&mut v, minted).unwrap();
    assert!(back <= 777_777);
    assert_eq!(back, 777_776);
}

#[test]
fn withdraw_pays_proportion_and_burns_shares() {
    let mut v = new_vault(2, 100, 50);
    deposit(&mut v, 1_000).unwrap();
    v.total_assets = 1_500;
    assert_eq!(withdraw(&mut v, 300), Ok(450));
    assert_eq!(v.total_assets, 1_050);
    assert_eq!(v.total_shares, 700);
    assert_eq!(v.net_deposits, 550);
}

#[test]
fn withdraw_of_every_share_empties_the_vault() {
    let mut v = new_vault(2, 100, 50);
    deposit(&mut v, 5_000).unwrap();
    assert_eq!(withdraw(&mut v, 5_000), Ok(5_000));
    assert_eq!(v.total_assets, 0);
    assert_eq!(v.total_shares, 0);
}

#[test]
fn deposit_refusals() {
    let mut v = new_vault(2, 100, 50);
    assert_eq!(deposit(&mut v, 0), Err(DeltaNeutralVaultError::InvalidAmount));
    v.max_capacity = 1_000;
    assert_eq!(deposit(&mut v, 1_001), Err(DeltaNeutralVaultError::CapacityExceeded));
    assert_eq!(deposit(&mut v, 1_000), Ok(1_000));
    let mut corrupted = new_vault(2, 100, 50);
    corrupted.total_shares = 10;
    let before = corrupted;
    assert_eq!(deposit(&mut corrupted, 5), Err(DeltaNeutralVaultError::CorruptedLedger));
    assert_eq!(corrupted, before);
}

#[test]
fn deposit_refuses_share_overflow() {
    let mut v = new_vault(2, 100, 50);
    v.max_capacity = u64::MAX;
    v.total_assets = 1;
    v.total_shares = u64::MAX / 2;
    let before = v;
    assert_eq!(deposit(&mut v, 4), Err(DeltaNeutralVaultError::ArithmeticOverflow));
    assert_eq!(v, before);
}

#[test]
fn withdraw_refusals() {
    let mut v = new_vault(2, 100, 50);
    deposit(&mut v, 1_000).unwrap();
    assert_eq!(withdraw(&mut v, 0), Err(DeltaNeutralVaultError::InsufficientShares));
    assert_eq!(withdraw(&mut v, 1_001), Err(DeltaNeutralVaultError::InsufficientShares));
    let mut corrupted = new_vault(2, 100, 50);
    corrupted.total_shares = 10;
    assert_eq!(withdraw(&mut corrupted, 5), Err(DeltaNeutralVaultError::CorruptedLedger));
}

#[test]
fn emergency_stop_gates_every_position_operation() {
    let mut v = imbalanced_vault();
    emergency_stop(&mut v, &ADMIN).unwrap();
    let before = v;
    assert_eq!(deposit(&mut v, 10), Err(DeltaNeutralVaultError::EmergencyStopActive));
    assert_eq!(withdraw(&mut v, 10), Err(DeltaNeutralVaultError::EmergencyStopActive));
    assert_eq!(rebalance(&mut v, 10_000), Err(DeltaNeutralVaultError::EmergencyStopActive));
    assert_eq!(open_position(&mut v, 10, 0), Err(DeltaNeutralVaultError::EmergencyStopActive));
    assert_eq!(close_position(&mut v, 10), Err(DeltaNeutralVaultError::EmergencyStopActive));
    assert_eq!(v, before);
}

#[test]
fn pause_and_resume_are_admin_only() {
    let mut v = new_vault(2, 100, 50);
    let stranger = [9u8; 32];
    assert_eq!(emergency_stop(&mut v, &stranger), Err(DeltaNeutralVaultError::Unauthorized));
    assert!(!v.emergency_stop);
    emergency_stop(&mut v, &ADMIN).unwrap();
    emergency_stop(&mut v, &ADMIN).unwrap();
    assert!(v.emergency_stop);
    assert_eq!(resume_vault(&mut v, &stranger), Err(DeltaNeutralVaultError::Unauthorized));
    assert!(v.emergency_stop);
    resume_vault(&mut v, &ADMIN).unwrap();
    assert!(!v.emergency_stop);
    assert_eq!(deposit(&mut v, 10), Ok(10));
}

#[test]
fn delta_decision_on_net_long_vault() {
    let v = imbalanced_vault();
    assert_eq!(v.calculate_delta(), Ok(200_000));
    assert_eq!(v.needs_rebalance(), Ok(true));
    let mut high = v;
    high.delta_threshold = 300;
    assert_eq!(high.needs_rebalance(), Ok(false));
    assert_eq!(
        v.calculate_required_hedge(),
        Ok(HedgeCalculation {
            action: HedgeAction::IncreaseShort,
            amount: 200_000,
            direction: PositionDirection::Short,
        })
    );
}

#[test]
fn net_short_vault_hedges_long() {
    let mut v = imbalanced_vault();
    v.long_position = 300_000;
    assert_eq!(
        v.calculate_required_hedge(),
        Ok(HedgeCalculation {
            action: HedgeAction::IncreaseLong,
            amount: 500_000,
            direction: PositionDirection::Long,
        })
    );
}

#[test]
fn dust_delta_needs_no_hedge() {
    let mut v = imbalanced_vault();
    v.long_position = 800_999;
    assert_eq!(v.calculate_required_hedge().unwrap().action, HedgeAction::NoAction);
    v.total_assets = 1;
    assert_eq!(rebalance(&mut v, 10_000), Err(DeltaNeutralVaultError::RebalanceNotNeeded));
}

#[test]
fn rebalance_twice_hits_cooldown() {
    let mut v = imbalanced_vault();
    let hedge = rebalance(&mut v, 1_000).unwrap();
    assert_eq!(hedge.action, HedgeAction::IncreaseShort);
    assert_eq!(hedge.amount, 200_000);
    assert_eq!(v.short_position, -1_000_000);
    assert_eq!(v.calculate_delta(), Ok(0));
    assert_eq!(v.last_rebalance_time, 1_000);
    let after_first = v;
    assert_eq!(rebalance(&mut v, 1_000), Err(DeltaNeutralVaultError::RebalanceCooldownActive));
    assert_eq!(v, after_first);
}

#[test]
fn rebalance_twice_without_cooldown_is_not_needed() {
    let mut v = imbalanced_vault();
    v.min_rebalance_interval = 0;
    rebalance(&mut v, 1_000).unwrap();
    let after_first = v;
    assert_eq!(rebalance(&mut v, 1_000), Err(DeltaNeutralVaultError::RebalanceNotNeeded));
    assert_eq!(v, after_first);
}

#[test]
fn rebalance_inside_cooldown_is_refused() {
    let mut v = imbalanced_vault();
    v.last_rebalance_time = 900;
    assert_eq!(rebalance(&mut v, 1_000), Err(DeltaNeutralVaultError::RebalanceCooldownActive));
    assert!(!v.can_rebalance(1_199));
    assert!(v.can_rebalance(1_200));
}

#[test]
fn collect_fees_takes_both_fees() {
    let mut v = new_vault(2, 100, 50);
    deposit(&mut v, 1_000_000_000).unwrap();
    v.total_assets = 1_200_000_000;
    let collected = collect_fees(&mut v, 31_536_000).unwrap();
    assert_eq!(
        collected,
        FeeCollection {
            management_fees: 24_000_000,
            performance_fees: 40_000_000,
            total_fees: 64_000_000,
        }
    );
    assert_eq!(v.total_assets, 1_136_000_000);
    assert_eq!(v.total_fees_collected, 64_000_000);
    assert_eq!(v.last_fee_collection_time, 31_536_000);
}

#[test]
fn collect_fees_skips_fees_above_assets() {
    let mut v = new_vault(2, 100, 50);
    deposit(&mut v, 1_000).unwrap();
    v.management_fee = 500;
    let before = v;
    let collected = collect_fees(&mut v, 31_536_000 * 30).unwrap();
    assert_eq!(collected.total_fees, 0);
    assert_eq!(v, before);
}

#[test]
fn collect_fees_allowed_while_paused() {
    let mut v = new_vault(2, 100, 50);
    deposit(&mut v, 1_000_000_000).unwrap();
    emergency_stop(&mut v, &ADMIN).unwrap();
    let collected = collect_fees(&mut v, 31_536_000).unwrap();
    assert_eq!(collected.management_fees, 20_000_000);
    assert_eq!(collected.performance_fees, 0);
}

#[test]
fn update_params_checks_every_value_first() {
    let mut v = new_vault(2, 100, 50);
    let before = v;
    assert_eq!(
        update_vault_params(&mut v, &ADMIN, Some(3), Some(5), None),
        Err(DeltaNeutralVaultError::InvalidParameter)
    );
    assert_eq!(v, before);
    assert_eq!(
        update_vault_params(&mut v, &[1u8; 32], Some(3), None, None),
        Err(DeltaNeutralVaultError::Unauthorized)
    );
    update_vault_params(&mut v, &ADMIN, Some(3), Some(250), Some(1000)).unwrap();
    assert_eq!(v.target_leverage, 3);
    assert_eq!(v.rebalance_threshold, 250);
    assert_eq!(v.delta_threshold, 250);
    assert_eq!(v.max_slippage, 1000);
}

#[test]
fn initialize_refuses_out_of_bounds_parameters() {
    assert_eq!(initialize_vault(ADMIN, 0, 100, 50, 0), Err(DeltaNeutralVaultError::InvalidParameter));
    assert_eq!(initialize_vault(ADMIN, 11, 100, 50, 0), Err(DeltaNeutralVaultError::InvalidParameter));
    assert_eq!(initialize_vault(ADMIN, 2, 9, 50, 0), Err(DeltaNeutralVaultError::InvalidParameter));
    assert_eq!(initialize_vault(ADMIN, 2, 1001, 50, 0), Err(DeltaNeutralVaultError::InvalidParameter));
    assert_eq!(initialize_vault(ADMIN, 2, 100, 1001, 0), Err(DeltaNeutralVaultError::InvalidParameter));
    let v = initialize_vault(ADMIN, 10, 1000, 1000, 42).unwrap();
    assert_eq!(v.last_rebalance_time, 42);
    assert_eq!(v.management_fee, 200);
    assert_eq!(v.performance_fee, 2000);
    assert_eq!(v.min_rebalance_interval, 300);
    assert_eq!(v.max_capacity, 1_000_000_000_000);
    assert_eq!(v.delta_threshold, 1000);
}

#[test]
fn open_and_close_positions() {
    let mut v = new_vault(2, 100, 50);
    assert_eq!(open_position(&mut v, 500, 0), Ok(PositionDirection::Long));
    assert_eq!(open_position(&mut v, 200, 1), Ok(PositionDirection::Short));
    assert_eq!(v.long_position, 500);
    assert_eq!(v.short_position, -200);
    assert_eq!(open_position(&mut v, 1, 2), Err(DeltaNeutralVaultError::InvalidPositionDirection));
    assert_eq!(close_position(&mut v, 500), Ok(PositionDirection::Long));
    assert_eq!(close_position(&mut v, 200), Ok(PositionDirection::Short));
    assert_eq!(v.long_position, 0);
    assert_eq!(v.short_position, 0);
    assert_eq!(close_position(&mut v, 1), Err(DeltaNeutralVaultError::NoPositionToClose));
}

#[test]
fn share_price_overflow_is_reported() {
    assert_eq!(calculate_share_price(u64::MAX, 1), Err(DeltaNeutralVaultError::ArithmeticOverflow));
    assert_eq!(calculate_share_price(5, 0), Ok(1_000_000));
    assert_eq!(calculate_share_price(1, 3), Ok(333_333));
}

#[test]
fn withdrawal_amount_floors() {
    assert_eq!(calculate_withdrawal_amount(1, 10, 3), Ok(3));
    assert_eq!(calculate_withdrawal_amount(1, 10, 0), Err(DeltaNeutralVaultError::InsufficientShares));
}

#[test]
fn management_fee_edges() {
    assert_eq!(calculate_management_fees(1_000_000_000, 200, 0), Ok(0));
    assert_eq!(calculate_management_fees(1_000_000_000, 200, -5), Ok(0));
    assert_eq!(calculate_management_fees(1_000_000_000, 200, 15_768_000), Ok(10_000_000));
    assert_eq!(calculate_management_fees(999, 1, 31_536_000), Ok(0));
    assert_eq!(
        calculate_management_fees(u64::MAX, u16::MAX, i64::MAX),
        Err(DeltaNeutralVaultError::ArithmeticOverflow)
    );
}

#[test]
fn performance_fee_needs_profit() {
    assert_eq!(calculate_performance_fees(1_000, 0, 1000), Ok(0));
    assert_eq!(calculate_performance_fees(1_000, -5, 1000), Ok(0));
    assert_eq!(calculate_performance_fees(1_000, 1_000, 1000), Ok(0));
    assert_eq!(calculate_performance_fees(1_999, 1_000, 1000), Ok(99));
}

#[test]
fn delta_percentage_edges() {
    assert_eq!(calculate_delta_percentage(5, 5, 0), Ok(0));
    assert_eq!(calculate_delta_percentage(i64::MAX, i64::MAX, 1), Ok(u16::MAX));
    assert_eq!(calculate_delta_percentage(-300, 100, 10_000), Ok(200));
}

#[test]
fn hedge_amount_overflow_is_reported() {
    assert_eq!(
        calculate_hedge_amount(i64::MAX, 0, -1),
        Err(DeltaNeutralVaultError::ArithmeticOverflow)
    );
    assert_eq!(calculate_hedge_amount(100, -100, 0), Ok((0, false)));
}

#[test]
fn delta_overflow_is_reported() {
    let mut v = new_vault(2, 100, 50);
    v.long_position = i64::MAX;
    v.short_position = 1;
    assert_eq!(v.calculate_delta(), Err(DeltaNeutralVaultError::ArithmeticOverflow));
}

#[test]
fn price_text_forms() {
    assert_eq!(format_price(0), "0.000000");
    assert_eq!(format_price(12_000_001), "12.000001");
    assert_eq!(format_price(u64::MAX), "18446744073709.551615");
    assert_eq!(parse_price("12"), Ok(12_000_000));
    assert_eq!(parse_price("0.000001"), Ok(1));
    assert_eq!(parse_price("1.1234567"), Ok(1_123_456));
    assert_eq!(parse_price("+3.25"), Ok(3_250_000));
    assert_eq!(parse_price("18446744073709.551615"), Ok(u64::MAX));
}

#[test]
fn price_text_refusals() {
    assert_eq!(parse_price("1.2.3"), Err(DeltaNeutralVaultError::InvalidPriceFormat));
    assert_eq!(parse_price("abc"), Err(DeltaNeutralVaultError::InvalidPriceFormat));
    assert_eq!(parse_price(""), Err(DeltaNeutralVaultError::InvalidPriceFormat));
    assert_eq!(parse_price(".5"), Err(DeltaNeutralVaultError::InvalidPriceFormat));
    assert_eq!(parse_price("-1"), Err(DeltaNeutralVaultError::InvalidPriceFormat));
    assert_eq!(parse_price("1.x"), Err(DeltaNeutralVaultError::InvalidPriceFormat));
    assert_eq!(
        parse_price("18446744073709.551616"),
        Err(DeltaNeutralVaultError::ArithmeticOverflow)
    );
}

#[test]
fn formatted_price_reads_back() {
    for price in [0u64, 1, 999_999, 1_000_000, 1_500_000, 123_456_789_012, u64::MAX] {
        assert_eq!(parse_price(&format_price(price)), Ok(price));
    }
}
