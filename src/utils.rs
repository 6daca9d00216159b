//! Share-ledger, fee and exposure arithmetic on plain integers.
use vstd::prelude::*;

use crate::constants::{
    BASIS_POINTS_DIVISOR, MAX_LEVERAGE, MAX_MANAGEMENT_FEE_BPS, MAX_PERFORMANCE_FEE_BPS,
    MAX_REBALANCE_THRESHOLD_BPS, MAX_SLIPPAGE_BPS, MIN_REBALANCE_THRESHOLD_BPS, PRICE_PRECISION,
    SECONDS_PER_YEAR,
};
use crate::errors::DeltaNeutralVaultError;
use crate::math::{
    abs, abs_i128, checked_u64, lemma_div_monotone, lemma_mul_bounded, lemma_mul_div_le,
    lemma_mul_div_split, min, mul_div_floor,
};

verus! {

/// Assets per share, scaled by `PRICE_PRECISION` and floored; `PRICE_PRECISION` with no shares.
pub open spec fn share_price_value(total_assets: int, total_shares: int) -> int {
    if total_shares == 0 {
        PRICE_PRECISION as int
    } else {
        total_assets * PRICE_PRECISION / total_shares
    }
}

/// Shares minted for a deposit: one per unit into an empty vault, else the floored
/// proportion of the pre-deposit totals.
pub open spec fn shares_for_deposit(amount: int, total_assets: int, total_shares: int) -> int {
    if total_shares == 0 {
        amount
    } else {
        amount * total_shares / total_assets
    }
}

/// Assets returned for burning `shares`: their floored proportion of the assets.
pub open spec fn assets_for_shares(shares: int, total_assets: int, total_shares: int) -> int {
    shares * total_assets / total_shares
}

/// Management fee accrued on `total_assets` at an annual `rate_bps` over `elapsed` seconds.
pub open spec fn management_fee_value(total_assets: int, rate_bps: int, elapsed: int) -> int {
    if elapsed <= 0 {
        0
    } else {
        total_assets * rate_bps * elapsed / (BASIS_POINTS_DIVISOR * SECONDS_PER_YEAR)
    }
}

/// Performance fee: `rate_bps` of the value above net deposits, nothing without a profit.
pub open spec fn performance_fee_value(total_value: int, net_deposits: int, rate_bps: int) -> int {
    if net_deposits <= 0 || total_value <= net_deposits {
        0
    } else {
        (total_value - net_deposits) * rate_bps / BASIS_POINTS_DIVISOR as int
    }
}

/// Net exposure as basis points of `total_value`, saturated at `u16::MAX`; zero for no value.
pub open spec fn delta_bps_value(delta: int, total_value: int) -> int {
    if total_value == 0 {
        0
    } else {
        min(u16::MAX as int, abs(delta) * BASIS_POINTS_DIVISOR / total_value)
    }
}

/// Whether every vault parameter lies within its accepted bounds.
pub open spec fn vault_params_valid(
    target_leverage: u8,
    rebalance_threshold: u16,
    max_slippage: u16,
    management_fee: u16,
    performance_fee: u16,
) -> bool {
    &&& 1 <= target_leverage <= MAX_LEVERAGE
    &&& MIN_REBALANCE_THRESHOLD_BPS <= rebalance_threshold <= MAX_REBALANCE_THRESHOLD_BPS
    &&& max_slippage <= MAX_SLIPPAGE_BPS
    &&& management_fee <= MAX_MANAGEMENT_FEE_BPS
    &&& performance_fee <= MAX_PERFORMANCE_FEE_BPS
}

/// The share price of a ledger, `PRICE_PRECISION` meaning one asset unit per share.
pub fn calculate_share_price(total_assets: u64, total_shares: u64) -> (r: Result<
    u64,
    DeltaNeutralVaultError,
>)
    ensures
        r == checked_u64(share_price_value(total_assets as int, total_shares as int)),
{
    if total_shares == 0 {
        return Ok(PRICE_PRECISION);
    }
    let price = mul_div_floor(total_assets, PRICE_PRECISION, total_shares);
    if price > u64::MAX as u128 {
        Err(DeltaNeutralVaultError::ArithmeticOverflow)
    } else {
        Ok(price as u64)
    }
}

/// Shares to mint for a deposit of `deposit_amount` into a ledger with the given totals.
pub fn calculate_shares_to_mint(deposit_amount: u64, total_assets: u64, total_shares: u64) -> (r:
    Result<u64, DeltaNeutralVaultError>)
    ensures
        (total_shares == 0) != (total_assets == 0) ==> r == Err::<u64, DeltaNeutralVaultError>(
            DeltaNeutralVaultError::CorruptedLedger,
        ),
        (total_shares == 0) == (total_assets == 0) ==> r == checked_u64(
            shares_for_deposit(deposit_amount as int, total_assets as int, total_shares as int),
        ),
{
    if (total_shares == 0) != (total_assets == 0) {
        return Err(DeltaNeutralVaultError::CorruptedLedger);
    }
    if total_shares == 0 {
        return Ok(deposit_amount);
    }
    let shares = mul_div_floor(deposit_amount, total_shares, total_assets);
    if shares > u64::MAX as u128 {
        Err(DeltaNeutralVaultError::ArithmeticOverflow)
    } else {
        Ok(shares as u64)
    }
}

/// Assets returned for burning `shares_to_burn` from a ledger with the given totals.
pub fn calculate_withdrawal_amount(shares_to_burn: u64, total_assets: u64, total_shares: u64) -> (r:
    Result<u64, DeltaNeutralVaultError>)
    ensures
        total_shares == 0 ==> r == Err::<u64, DeltaNeutralVaultError>(
            DeltaNeutralVaultError::InsufficientShares,
        ),
        total_shares != 0 ==> r == checked_u64(
            assets_for_shares(shares_to_burn as int, total_assets as int, total_shares as int),
        ),
{
    if total_shares == 0 {
        return Err(DeltaNeutralVaultError::InsufficientShares);
    }
    let amount = mul_div_floor(shares_to_burn, total_assets, total_shares);
    if amount > u64::MAX as u128 {
        Err(DeltaNeutralVaultError::ArithmeticOverflow)
    } else {
        Ok(amount as u64)
    }
}

/// Management fee accrued on `total_assets` at the annual `fee_rate_bps` over
/// `time_elapsed_seconds`, floored once over the whole product.
pub fn calculate_management_fees(total_assets: u64, fee_rate_bps: u16, time_elapsed_seconds: i64) -> (r:
    Result<u64, DeltaNeutralVaultError>)
    ensures
        r == checked_u64(
            management_fee_value(
                total_assets as int,
                fee_rate_bps as int,
                time_elapsed_seconds as int,
            ),
        ),
{
    if time_elapsed_seconds <= 0 {
        return Ok(0);
    }
    let year_bps: u128 = 315_360_000_000;
    assert(year_bps == BASIS_POINTS_DIVISOR * SECONDS_PER_YEAR);
    let elapsed = time_elapsed_seconds as u128;
    let whole_periods = elapsed / year_bps;
    let rest = elapsed % year_bps;
    proof {
        lemma_mul_bounded(total_assets as int, fee_rate_bps as int, u64::MAX as int, u16::MAX as int);
        lemma_div_monotone(elapsed as int, i64::MAX as int, year_bps as int);
        assert(i64::MAX as int / 315_360_000_000 < 0x200_0000);
    }
    let annual = (total_assets as u128) * (fee_rate_bps as u128);
    proof {
        lemma_mul_bounded(annual as int, whole_periods as int, 0x1_0000_0000_0000_0000_0000, 0x200_0000);
        lemma_mul_bounded(annual as int, rest as int, 0x1_0000_0000_0000_0000_0000, year_bps as int);
    }
    let whole = annual * whole_periods;
    let part = annual * rest / year_bps;
    proof {
        lemma_mul_div_le(annual as int, rest as int, year_bps as int);
        lemma_mul_div_split(annual as int, elapsed as int, year_bps as int, whole_periods as int, rest as int);
        assert((total_assets as int) * (fee_rate_bps as int) * (elapsed as int) == (annual as int) * (elapsed as int));
    }
    let fee = whole + part;
    if fee > u64::MAX as u128 {
        Err(DeltaNeutralVaultError::ArithmeticOverflow)
    } else {
        Ok(fee as u64)
    }
}

/// Performance fee of `fee_rate_bps` on the value above `net_deposits`.
pub fn calculate_performance_fees(total_value: u64, net_deposits: i64, fee_rate_bps: u16) -> (r:
    Result<u64, DeltaNeutralVaultError>)
    ensures
        r == checked_u64(
            performance_fee_value(total_value as int, net_deposits as int, fee_rate_bps as int),
        ),
{
    if net_deposits <= 0 || total_value <= net_deposits as u64 {
        return Ok(0);
    }
    let profit = total_value - net_deposits as u64;
    let fee = mul_div_floor(profit, fee_rate_bps as u64, BASIS_POINTS_DIVISOR);
    if fee > u64::MAX as u128 {
        Err(DeltaNeutralVaultError::ArithmeticOverflow)
    } else {
        Ok(fee as u64)
    }
}

/// The net exposure `long_position + short_position` as basis points of `total_value`,
/// saturated at `u16::MAX`.
pub fn calculate_delta_percentage(long_position: i64, short_position: i64, total_value: u64) -> (r:
    Result<u16, DeltaNeutralVaultError>)
    ensures
        r == Ok::<u16, DeltaNeutralVaultError>(
            delta_bps_value(long_position + short_position, total_value as int) as u16,
        ),
{
    if total_value == 0 {
        return Ok(0);
    }
    let magnitude = abs_i128(long_position as i128 + short_position as i128);
    proof {
        lemma_mul_bounded(magnitude as int, BASIS_POINTS_DIVISOR as int, 0x1_0000_0000_0000_0000, BASIS_POINTS_DIVISOR as int);
    }
    let bps = magnitude * (BASIS_POINTS_DIVISOR as u128) / (total_value as u128);
    if bps > u16::MAX as u128 {
        Ok(u16::MAX)
    } else {
        Ok(bps as u16)
    }
}

/// Whether the net exposure, in basis points of `total_value`, exceeds `delta_threshold_bps`.
pub fn should_rebalance(
    long_position: i64,
    short_position: i64,
    total_value: u64,
    delta_threshold_bps: u16,
) -> (r: Result<bool, DeltaNeutralVaultError>)
    ensures
        r == Ok::<bool, DeltaNeutralVaultError>(
            delta_bps_value(long_position + short_position, total_value as int)
                > delta_threshold_bps,
        ),
{
    let delta_percentage = calculate_delta_percentage(long_position, short_position, total_value)?;
    Ok(delta_percentage > delta_threshold_bps)
}

/// The size of the order that moves the net exposure to `target_delta`, and whether that
/// order sells (the exposure lies above the target).
pub fn calculate_hedge_amount(long_position: i64, short_position: i64, target_delta: i64) -> (r:
    Result<(i64, bool), DeltaNeutralVaultError>)
    ensures
        ({
            let diff = long_position + short_position - target_delta;
            &&& abs(diff) <= i64::MAX ==> r == Ok::<(i64, bool), DeltaNeutralVaultError>(
                (abs(diff) as i64, diff > 0),
            )
            &&& abs(diff) > i64::MAX ==> r == Err::<(i64, bool), DeltaNeutralVaultError>(
                DeltaNeutralVaultError::ArithmeticOverflow,
            )
        }),
{
    let diff = long_position as i128 + short_position as i128 - target_delta as i128;
    let amount = abs_i128(diff);
    if amount > i64::MAX as u128 {
        return Err(DeltaNeutralVaultError::ArithmeticOverflow);
    }
    Ok((amount as i64, diff > 0))
}

/// An order size no larger than `target_amount` nor than `max_slippage_bps` of
/// `market_depth`.
pub fn calculate_optimal_order_size(target_amount: u64, market_depth: u64, max_slippage_bps: u16) -> (r:
    Result<u64, DeltaNeutralVaultError>)
    ensures
        r == Ok::<u64, DeltaNeutralVaultError>(
            min(
                target_amount as int,
                market_depth * max_slippage_bps / BASIS_POINTS_DIVISOR as int,
            ) as u64,
        ),
{
    let max_order_size = mul_div_floor(market_depth, max_slippage_bps as u64, BASIS_POINTS_DIVISOR);
    if (target_amount as u128) <= max_order_size {
        Ok(target_amount)
    } else {
        Ok(max_order_size as u64)
    }
}

/// Slippage, in basis points, of an order under a linear model: `base_slippage_bps` scaled
/// by the order's share of `market_depth`, saturated at `u16::MAX`.
pub fn calculate_expected_slippage(order_size: u64, market_depth: u64, base_slippage_bps: u16) -> (r:
    Result<u16, DeltaNeutralVaultError>)
    ensures
        market_depth == 0 ==> r == Err::<u16, DeltaNeutralVaultError>(
            DeltaNeutralVaultError::InvalidMarketState,
        ),
        market_depth != 0 ==> r == Ok::<u16, DeltaNeutralVaultError>(
            min(
                u16::MAX as int,
                base_slippage_bps * (order_size * BASIS_POINTS_DIVISOR / market_depth as int)
                    / BASIS_POINTS_DIVISOR as int,
            ) as u16,
        ),
{
    if market_depth == 0 {
        return Err(DeltaNeutralVaultError::InvalidMarketState);
    }
    let size_ratio = mul_div_floor(order_size, BASIS_POINTS_DIVISOR, market_depth);
    proof {
        lemma_mul_bounded(order_size as int, BASIS_POINTS_DIVISOR as int, u64::MAX as int, BASIS_POINTS_DIVISOR as int);
        lemma_mul_bounded(base_slippage_bps as int, size_ratio as int, u16::MAX as int, u64::MAX * BASIS_POINTS_DIVISOR);
    }
    let slippage = (base_slippage_bps as u128) * size_ratio / (BASIS_POINTS_DIVISOR as u128);
    if slippage > u16::MAX as u128 {
        Ok(u16::MAX)
    } else {
        Ok(slippage as u16)
    }
}

/// Accepts vault parameters within their bounds and refuses any other.
pub fn validate_vault_params(
    target_leverage: u8,
    rebalance_threshold: u16,
    max_slippage: u16,
    management_fee: u16,
    performance_fee: u16,
) -> (r: Result<(), DeltaNeutralVaultError>)
    ensures
        r is Ok <==> vault_params_valid(
            target_leverage,
            rebalance_threshold,
            max_slippage,
            management_fee,
            performance_fee,
        ),
        r is Err ==> r == Err::<(), DeltaNeutralVaultError>(
            DeltaNeutralVaultError::InvalidParameter,
        ),
{
    if target_leverage == 0 || target_leverage > MAX_LEVERAGE {
        return Err(DeltaNeutralVaultError::InvalidParameter);
    }
    if rebalance_threshold < MIN_REBALANCE_THRESHOLD_BPS || rebalance_threshold
        > MAX_REBALANCE_THRESHOLD_BPS {
        return Err(DeltaNeutralVaultError::InvalidParameter);
    }
    if max_slippage > MAX_SLIPPAGE_BPS {
        return Err(DeltaNeutralVaultError::InvalidParameter);
    }
    if management_fee > MAX_MANAGEMENT_FEE_BPS || performance_fee > MAX_PERFORMANCE_FEE_BPS {
        return Err(DeltaNeutralVaultError::InvalidParameter);
    }
    Ok(())
}

/// Capital times leverage, less a safety margin of `safety_margin_bps` of that product.
pub fn calculate_max_position_size(available_capital: u64, leverage: u8, safety_margin_bps: u16) -> (r:
    Result<u64, DeltaNeutralVaultError>)
    ensures
        ({
            let max_theoretical = available_capital * leverage;
            &&& max_theoretical > u64::MAX ==> r == Err::<u64, DeltaNeutralVaultError>(
                DeltaNeutralVaultError::ArithmeticOverflow,
            )
            &&& max_theoretical <= u64::MAX ==> r == checked_u64(
                max_theoretical - max_theoretical * safety_margin_bps
                    / BASIS_POINTS_DIVISOR as int,
            )
        }),
{
    proof {
        lemma_mul_bounded(available_capital as int, leverage as int, u64::MAX as int, u8::MAX as int);
    }
    let max_theoretical = (available_capital as u128) * (leverage as u128);
    if max_theoretical > u64::MAX as u128 {
        return Err(DeltaNeutralVaultError::ArithmeticOverflow);
    }
    let safety_adjustment = mul_div_floor(
        max_theoretical as u64,
        safety_margin_bps as u64,
        BASIS_POINTS_DIVISOR,
    );
    if safety_adjustment > max_theoretical {
        return Err(DeltaNeutralVaultError::ArithmeticOverflow);
    }
    Ok((max_theoretical - safety_adjustment) as u64)
}

/// Whether `actual_price` lies within `max_slippage_bps` of `expected_price`.
pub fn is_within_slippage_tolerance(expected_price: u64, actual_price: u64, max_slippage_bps: u16) -> (r:
    bool)
    ensures
        r == (abs(actual_price - expected_price) <= expected_price * max_slippage_bps
            / BASIS_POINTS_DIVISOR as int),
{
    let price_diff = if actual_price > expected_price {
        actual_price - expected_price
    } else {
        expected_price - actual_price
    };
    let max_allowed_diff = mul_div_floor(expected_price, max_slippage_bps as u64, BASIS_POINTS_DIVISOR);
    (price_diff as u128) <= max_allowed_diff
}

} // verus!
