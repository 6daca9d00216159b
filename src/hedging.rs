//! Hedge orders and the venue's position snapshot, as plain values: what the vault sends
//! to the hedging venue and what it reads back from it.
use vstd::prelude::*;

use crate::constants::{BASIS_POINTS_DIVISOR, DUST_THRESHOLD, PRICE_PRECISION};
use crate::errors::DeltaNeutralVaultError;
use crate::math::{abs, abs_i128, fits_i64, lemma_mul_bounded, mul_div_floor};
use crate::state::{PositionDirection, VaultState};

verus! {

/// One perpetual position held on the venue.
#[derive(Debug, Clone, Copy, PartialEq, Eq, Structural)]
pub struct PerpPosition {
    pub market_index: u16,
    /// Signed size: positive long, negative short.
    pub base_asset_amount: i64,
    /// Signed quote value paid or received for the position.
    pub quote_asset_amount: i64,
}

/// A limit order that moves the vault's net exposure to a target.
#[derive(Debug, Clone, Copy, PartialEq, Eq, Structural)]
pub struct HedgeOrderParams {
    pub market_index: u16,
    pub direction: PositionDirection,
    pub base_asset_amount: u64,
    /// Oracle price moved against the order by the slippage tolerance.
    pub limit_price: u64,
}

/// The first position in `positions` on market `market_index`.
pub open spec fn find_position(positions: Seq<PerpPosition>, market_index: u16) -> Option<
    PerpPosition,
>
    decreases positions.len(),
{
    if positions.len() == 0 {
        None
    } else if positions[0].market_index == market_index {
        Some(positions[0])
    } else {
        find_position(positions.drop_first(), market_index)
    }
}

/// The long size that a looked-up position contributes.
pub open spec fn long_part(p: Option<PerpPosition>) -> int {
    match p {
        Some(q) => if q.base_asset_amount > 0 {
            q.base_asset_amount as int
        } else {
            0
        },
        None => 0,
    }
}

/// The (non-positive) short size that a looked-up position contributes.
pub open spec fn short_part(p: Option<PerpPosition>) -> int {
    match p {
        Some(q) => if q.base_asset_amount > 0 {
            0
        } else {
            q.base_asset_amount as int
        },
        None => 0,
    }
}

/// Total long size over the markets listed in `indices`, each looked up in `positions`.
pub open spec fn long_total(positions: Seq<PerpPosition>, indices: Seq<u16>) -> int
    decreases indices.len(),
{
    if indices.len() == 0 {
        0
    } else {
        long_total(positions, indices.drop_last()) + long_part(
            find_position(positions, indices.last()),
        )
    }
}

/// Total short size over the markets listed in `indices`, each looked up in `positions`.
pub open spec fn short_total(positions: Seq<PerpPosition>, indices: Seq<u16>) -> int
    decreases indices.len(),
{
    if indices.len() == 0 {
        0
    } else {
        short_total(positions, indices.drop_last()) + short_part(
            find_position(positions, indices.last()),
        )
    }
}

/// `a / d` rounded toward zero.
pub open spec fn div_toward_zero(a: int, d: int) -> int {
    if a >= 0 {
        a / d
    } else {
        -((-a) / d)
    }
}

/// Unrealized profit of a position at `oracle_price`, against its average entry price
/// `|quote| / |base|`, in quote units scaled down by `PRICE_PRECISION`.
pub open spec fn unrealized_pnl_value(p: PerpPosition, oracle_price: int) -> int {
    if p.base_asset_amount == 0 {
        0
    } else {
        let size = abs(p.base_asset_amount as int);
        let entry = abs(p.quote_asset_amount as int) / size;
        let move_in_favour = if p.base_asset_amount > 0 {
            oracle_price - entry
        } else {
            entry - oracle_price
        };
        div_toward_zero(move_in_favour * size, PRICE_PRECISION as int)
    }
}

/// The limit order that moves the net exposure of `v` to `target_delta` on market
/// `market_index`, priced from `oracle_price` with the vault's slippage tolerance.
pub open spec fn hedge_order_value(
    v: VaultState,
    market_index: u16,
    target_delta: i64,
    oracle_price: u64,
) -> Result<HedgeOrderParams, DeltaNeutralVaultError> {
    let diff = v.delta() - target_delta;
    let adjustment = oracle_price * v.max_slippage / BASIS_POINTS_DIVISOR as int;
    let direction = if diff > 0 {
        PositionDirection::Short
    } else {
        PositionDirection::Long
    };
    let limit = if diff > 0 {
        oracle_price - adjustment
    } else {
        oracle_price + adjustment
    };
    if !fits_i64(v.delta()) {
        Err(DeltaNeutralVaultError::ArithmeticOverflow)
    } else if abs(diff) < DUST_THRESHOLD {
        Err(DeltaNeutralVaultError::RebalanceNotNeeded)
    } else if !(0 <= limit <= u64::MAX) {
        Err(DeltaNeutralVaultError::ArithmeticOverflow)
    } else {
        Ok(
            HedgeOrderParams {
                market_index,
                direction,
                base_asset_amount: abs(diff) as u64,
                limit_price: limit as u64,
            },
        )
    }
}

/// Index of the first position on market `market_index`.
fn find_position_index(positions: &Vec<PerpPosition>, market_index: u16) -> (r: Option<usize>)
    ensures
        match r {
            Some(i) => i < positions@.len() && find_position(positions@, market_index) == Some(
                positions@[i as int],
            ),
            None => find_position(positions@, market_index) is None,
        },
{
    let mut i: usize = 0;
    assert(positions@.subrange(0, positions@.len() as int) =~= positions@);
    while i < positions.len()
        invariant
            0 <= i <= positions@.len(),
            find_position(positions@, market_index) == find_position(
                positions@.subrange(i as int, positions@.len() as int),
                market_index,
            ),
        decreases positions@.len() - i,
    {
        let rest = Ghost(positions@.subrange(i as int, positions@.len() as int));
        assert(rest@[0] == positions@[i as int]);
        if positions[i].market_index == market_index {
            return Some(i);
        }
        assert(rest@.drop_first() =~= positions@.subrange(i + 1, positions@.len() as int));
        i = i + 1;
    }
    assert(positions@.subrange(i as int, positions@.len() as int).len() == 0);
    None
}

/// Size and absolute quote value of the position held on market `market_index`.
pub fn get_position_info(positions: &Vec<PerpPosition>, market_index: u16) -> (r: Result<
    (i64, u64),
    DeltaNeutralVaultError,
>)
    ensures
        match find_position(positions@, market_index) {
            Some(p) => r == Ok::<(i64, u64), DeltaNeutralVaultError>(
                (p.base_asset_amount, abs(p.quote_asset_amount as int) as u64),
            ),
            None => r == Err::<(i64, u64), DeltaNeutralVaultError>(
                DeltaNeutralVaultError::MarketNotFound,
            ),
        },
{
    match find_position_index(positions, market_index) {
        Some(i) => {
            let p = positions[i];
            Ok((p.base_asset_amount, abs_i128(p.quote_asset_amount as i128) as u64))
        },
        None => Err(DeltaNeutralVaultError::MarketNotFound),
    }
}

/// Unrealized profit of the position held on market `market_index` at `oracle_price`.
pub fn calculate_unrealized_pnl(positions: &Vec<PerpPosition>, market_index: u16, oracle_price: u64) -> (r:
    Result<i64, DeltaNeutralVaultError>)
    ensures
        match find_position(positions@, market_index) {
            Some(p) => {
                let pnl = unrealized_pnl_value(p, oracle_price as int);
                &&& fits_i64(pnl) ==> r == Ok::<i64, DeltaNeutralVaultError>(pnl as i64)
                &&& !fits_i64(pnl) ==> r == Err::<i64, DeltaNeutralVaultError>(
                    DeltaNeutralVaultError::ArithmeticOverflow,
                )
            },
            None => r == Err::<i64, DeltaNeutralVaultError>(
                DeltaNeutralVaultError::MarketNotFound,
            ),
        },
{
    let p = match find_position_index(positions, market_index) {
        Some(i) => positions[i],
        None => return Err(DeltaNeutralVaultError::MarketNotFound),
    };
    if p.base_asset_amount == 0 {
        return Ok(0);
    }
    let size = abs_i128(p.base_asset_amount as i128);
    let entry = abs_i128(p.quote_asset_amount as i128) / size;
    let move_in_favour: i128 = if p.base_asset_amount > 0 {
        oracle_price as i128 - entry as i128
    } else {
        entry as i128 - oracle_price as i128
    };
    let magnitude = abs_i128(move_in_favour);
    proof {
        lemma_mul_bounded(magnitude as int, size as int, u64::MAX as int, 0x8000_0000_0000_0000);
    }
    let scaled = magnitude * size / (PRICE_PRECISION as u128);
    proof {
        assert((magnitude as int) * (size as int) == abs((move_in_favour as int) * (size as int)))
            by (nonlinear_arith)
            requires
                magnitude as int == abs(move_in_favour as int),
                size >= 0,
        ;
        assert(((move_in_favour as int) * (size as int) >= 0) == (move_in_favour >= 0))
            by (nonlinear_arith)
            requires
                size > 0,
        ;
    }
    if move_in_favour < 0 {
        if scaled > 0x8000_0000_0000_0000 {
            return Err(DeltaNeutralVaultError::ArithmeticOverflow);
        }
        Ok((0 - scaled as i128) as i64)
    } else {
        if scaled > i64::MAX as u128 {
            return Err(DeltaNeutralVaultError::ArithmeticOverflow);
        }
        Ok(scaled as i64)
    }
}

/// A prefix of the market list contributes no more long size, and no more short size,
/// than the whole list.
pub proof fn lemma_totals_of_prefix(positions: Seq<PerpPosition>, indices: Seq<u16>, i: int)
    requires
        0 <= i <= indices.len(),
    ensures
        0 <= long_total(positions, indices.subrange(0, i)) <= long_total(positions, indices),
        0 >= short_total(positions, indices.subrange(0, i)) >= short_total(positions, indices),
    decreases indices.len(),
{
    if i < indices.len() {
        lemma_totals_of_prefix(positions, indices.drop_last(), i);
        assert(indices.drop_last().subrange(0, i) =~= indices.subrange(0, i));
    } else {
        assert(indices.subrange(0, i) =~= indices);
        if indices.len() > 0 {
            lemma_totals_of_prefix(positions, indices.drop_last(), i - 1);
            assert(indices.drop_last().subrange(0, i - 1) =~= indices.drop_last());
        }
    }
}

/// Recomputes the vault's long and short totals from the venue's positions on the listed
/// markets; a market without a position contributes nothing.
pub fn sync_vault_positions(
    vault_state: &mut VaultState,
    positions: &Vec<PerpPosition>,
    market_indices: &Vec<u16>,
) -> (r: Result<(), DeltaNeutralVaultError>)
    ensures
        ({
            let long = long_total(positions@, market_indices@);
            let short = short_total(positions@, market_indices@);
            &&& fits_i64(long) && fits_i64(short) ==> r == Ok::<(), DeltaNeutralVaultError>(())
                && *final(vault_state) == (VaultState {
                long_position: long as i64,
                short_position: short as i64,
                ..*old(vault_state)
            })
            &&& !(fits_i64(long) && fits_i64(short)) ==> r == Err::<(), DeltaNeutralVaultError>(
                DeltaNeutralVaultError::ArithmeticOverflow,
            ) && *final(vault_state) == *old(vault_state)
        }),
{
    let mut total_long: i64 = 0;
    let mut total_short: i64 = 0;
    let mut i: usize = 0;
    while i < market_indices.len()
        invariant
            0 <= i <= market_indices@.len(),
            total_long == long_total(positions@, market_indices@.subrange(0, i as int)),
            total_short == short_total(positions@, market_indices@.subrange(0, i as int)),
        decreases market_indices@.len() - i,
    {
        let ghost before = market_indices@.subrange(0, i as int);
        let ghost after = market_indices@.subrange(0, i + 1);
        assert(after.drop_last() =~= before);
        assert(after.last() == market_indices@[i as int]);
        let market_index = market_indices[i];
        if let Some(k) = find_position_index(positions, market_index) {
            let base = positions[k].base_asset_amount;
            if base > 0 {
                if total_long as i128 + base as i128 > i64::MAX as i128 {
                    proof {
                        lemma_totals_of_prefix(positions@, market_indices@, i + 1);
                    }
                    return Err(DeltaNeutralVaultError::ArithmeticOverflow);
                }
                total_long = total_long + base;
            } else {
                if (total_short as i128 + base as i128) < (i64::MIN as i128) {
                    proof {
                        lemma_totals_of_prefix(positions@, market_indices@, i + 1);
                    }
                    return Err(DeltaNeutralVaultError::ArithmeticOverflow);
                }
                total_short = total_short + base;
            }
        }
        i = i + 1;
    }
    assert(market_indices@.subrange(0, i as int) =~= market_indices@);
    vault_state.long_position = total_long;
    vault_state.short_position = total_short;
    Ok(())
}

/// The limit order that moves the net exposure to `target_delta` on market
/// `market_index`, priced from `oracle_price` with the vault's slippage tolerance: a buy
/// may pay up to the tolerance above the oracle, a sale accepts down to it below.
pub fn calculate_hedge_order_params(
    vault_state: &VaultState,
    market_index: u16,
    target_delta: i64,
    oracle_price: u64,
) -> (r: Result<HedgeOrderParams, DeltaNeutralVaultError>)
    ensures
        r == hedge_order_value(*vault_state, market_index, target_delta, oracle_price),
{
    let current_delta = match vault_state.calculate_delta() {
        Ok(d) => d,
        Err(e) => return Err(e),
    };
    let diff = current_delta as i128 - target_delta as i128;
    let amount = abs_i128(diff);
    if amount < DUST_THRESHOLD as u128 {
        return Err(DeltaNeutralVaultError::RebalanceNotNeeded);
    }
    let adjustment = mul_div_floor(oracle_price, vault_state.max_slippage as u64, BASIS_POINTS_DIVISOR);
    proof {
        lemma_mul_bounded(oracle_price as int, vault_state.max_slippage as int, u64::MAX as int, u16::MAX as int);
    }
    let (direction, limit) = if diff > 0 {
        if adjustment > oracle_price as u128 {
            return Err(DeltaNeutralVaultError::ArithmeticOverflow);
        }
        (PositionDirection::Short, oracle_price as u128 - adjustment)
    } else {
        if oracle_price as u128 + adjustment > u64::MAX as u128 {
            return Err(DeltaNeutralVaultError::ArithmeticOverflow);
        }
        (PositionDirection::Long, oracle_price as u128 + adjustment)
    };
    Ok(
        HedgeOrderParams {
            market_index,
            direction,
            base_asset_amount: amount as u64,
            limit_price: limit as u64,
        },
    )
}

} // verus!
