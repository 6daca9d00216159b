//! The operations on a vault record. Each one either commits its whole transition and
//! returns its result, or leaves the record untouched and returns an error.
use vstd::arithmetic::mul::lemma_mul_is_commutative;
use vstd::prelude::*;

use crate::constants::{
    DEFAULT_MANAGEMENT_FEE_BPS, DEFAULT_MAX_CAPACITY, DEFAULT_PERFORMANCE_FEE_BPS, MAX_LEVERAGE,
    MAX_REBALANCE_THRESHOLD_BPS, MAX_SLIPPAGE_BPS, MIN_REBALANCE_INTERVAL,
    MIN_REBALANCE_THRESHOLD_BPS,
};
use crate::errors::DeltaNeutralVaultError;
use crate::math::{fits_i64, lemma_mul_div_le};
use crate::state::{hedge_for_delta, HedgeAction, HedgeCalculation, PositionDirection, VaultState};
use crate::utils::{
    assets_for_shares, calculate_management_fees, calculate_performance_fees,
    calculate_shares_to_mint, calculate_withdrawal_amount, management_fee_value,
    performance_fee_value, shares_for_deposit, validate_vault_params, vault_params_valid,
};

verus! {

/// Fees computed and taken by one collection.
#[derive(Debug, Clone, Copy, PartialEq, Eq, Structural)]
pub struct FeeCollection {
    pub management_fees: u64,
    pub performance_fees: u64,
    pub total_fees: u64,
}

/// Whether `r`, with the record going from `before` to `after`, is what `transition`
/// prescribes: its new record and result, or its error with the record unchanged.
pub open spec fn follows<T>(
    transition: Result<(VaultState, T), DeltaNeutralVaultError>,
    before: VaultState,
    after: VaultState,
    r: Result<T, DeltaNeutralVaultError>,
) -> bool {
    match transition {
        Ok((next, value)) => after == next && r == Ok::<T, DeltaNeutralVaultError>(value),
        Err(e) => after == before && r == Err::<T, DeltaNeutralVaultError>(e),
    }
}

/// Whether `caller` is the vault's admin.
pub open spec fn is_admin(v: VaultState, caller: [u8; 32]) -> bool {
    v.admin == caller
}

/// The record after `action` moves the positions by `amount`, or nothing when a position
/// would leave the `i64` range. Long orders add to the long position; short orders make
/// the (negative) short position more negative.
pub open spec fn positions_after(v: VaultState, action: HedgeAction, amount: u64) -> Option<
    VaultState,
> {
    match action {
        HedgeAction::NoAction => Some(v),
        HedgeAction::IncreaseLong => if fits_i64(v.long_position + amount) {
            Some(VaultState { long_position: (v.long_position + amount) as i64, ..v })
        } else {
            None
        },
        HedgeAction::ReduceLong => if fits_i64(v.long_position - amount) {
            Some(VaultState { long_position: (v.long_position - amount) as i64, ..v })
        } else {
            None
        },
        HedgeAction::IncreaseShort => if fits_i64(v.short_position - amount) {
            Some(VaultState { short_position: (v.short_position - amount) as i64, ..v })
        } else {
            None
        },
        HedgeAction::ReduceShort => if fits_i64(v.short_position + amount) {
            Some(VaultState { short_position: (v.short_position + amount) as i64, ..v })
        } else {
            None
        },
    }
}

/// The record of a newly initialized vault, or the reason it is refused.
pub open spec fn initial_state(
    admin: [u8; 32],
    target_leverage: u8,
    rebalance_threshold: u16,
    max_slippage: u16,
    now: i64,
) -> Result<VaultState, DeltaNeutralVaultError> {
    if vault_params_valid(
        target_leverage,
        rebalance_threshold,
        max_slippage,
        DEFAULT_MANAGEMENT_FEE_BPS,
        DEFAULT_PERFORMANCE_FEE_BPS,
    ) {
        Ok(
            VaultState {
                admin,
                target_leverage,
                rebalance_threshold,
                max_slippage,
                total_assets: 0,
                total_shares: 0,
                long_position: 0,
                short_position: 0,
                total_fees_collected: 0,
                last_rebalance_time: now,
                last_fee_collection_time: now,
                net_deposits: 0,
                emergency_stop: false,
                max_capacity: DEFAULT_MAX_CAPACITY,
                management_fee: DEFAULT_MANAGEMENT_FEE_BPS,
                performance_fee: DEFAULT_PERFORMANCE_FEE_BPS,
                min_rebalance_interval: MIN_REBALANCE_INTERVAL,
                delta_threshold: rebalance_threshold,
            },
        )
    } else {
        Err(DeltaNeutralVaultError::InvalidParameter)
    }
}

/// A deposit of `amount`: the new record and the shares minted.
pub open spec fn deposit_transition(v: VaultState, amount: u64) -> Result<
    (VaultState, u64),
    DeltaNeutralVaultError,
> {
    if v.emergency_stop {
        Err(DeltaNeutralVaultError::EmergencyStopActive)
    } else if amount == 0 {
        Err(DeltaNeutralVaultError::InvalidAmount)
    } else if v.total_assets + amount > v.max_capacity {
        Err(DeltaNeutralVaultError::CapacityExceeded)
    } else if !v.ledger_consistent() {
        Err(DeltaNeutralVaultError::CorruptedLedger)
    } else {
        let minted = shares_for_deposit(amount as int, v.total_assets as int, v.total_shares as int);
        if v.total_shares + minted > u64::MAX || !fits_i64(v.net_deposits + amount) {
            Err(DeltaNeutralVaultError::ArithmeticOverflow)
        } else {
            Ok(
                (
                    VaultState {
                        total_assets: (v.total_assets + amount) as u64,
                        total_shares: (v.total_shares + minted) as u64,
                        net_deposits: (v.net_deposits + amount) as i64,
                        ..v
                    },
                    minted as u64,
                ),
            )
        }
    }
}

/// A withdrawal of `shares`: the new record and the assets returned.
pub open spec fn withdraw_transition(v: VaultState, shares: u64) -> Result<
    (VaultState, u64),
    DeltaNeutralVaultError,
> {
    if v.emergency_stop {
        Err(DeltaNeutralVaultError::EmergencyStopActive)
    } else if shares == 0 || shares > v.total_shares {
        Err(DeltaNeutralVaultError::InsufficientShares)
    } else if !v.ledger_consistent() {
        Err(DeltaNeutralVaultError::CorruptedLedger)
    } else {
        let assets = assets_for_shares(shares as int, v.total_assets as int, v.total_shares as int);
        if assets > v.total_assets {
            Err(DeltaNeutralVaultError::InsufficientLiquidity)
        } else if !fits_i64(v.net_deposits - assets) {
            Err(DeltaNeutralVaultError::ArithmeticOverflow)
        } else {
            Ok(
                (
                    VaultState {
                        total_assets: (v.total_assets - assets) as u64,
                        total_shares: (v.total_shares - shares) as u64,
                        net_deposits: (v.net_deposits - assets) as i64,
                        ..v
                    },
                    assets as u64,
                ),
            )
        }
    }
}

/// A rebalance at `now`: the new record and the hedge to execute.
pub open spec fn rebalance_transition(v: VaultState, now: i64) -> Result<
    (VaultState, HedgeCalculation),
    DeltaNeutralVaultError,
> {
    if v.emergency_stop {
        Err(DeltaNeutralVaultError::EmergencyStopActive)
    } else if !v.cooldown_elapsed(now) {
        Err(DeltaNeutralVaultError::RebalanceCooldownActive)
    } else if !v.spec_needs_rebalance() {
        Err(DeltaNeutralVaultError::RebalanceNotNeeded)
    } else if !fits_i64(v.delta()) {
        Err(DeltaNeutralVaultError::ArithmeticOverflow)
    } else {
        let hedge = hedge_for_delta(v.delta());
        if hedge.action == HedgeAction::NoAction {
            Err(DeltaNeutralVaultError::RebalanceNotNeeded)
        } else {
            match positions_after(v, hedge.action, hedge.amount) {
                Some(moved) => Ok((VaultState { last_rebalance_time: now, ..moved }, hedge)),
                None => Err(DeltaNeutralVaultError::ArithmeticOverflow),
            }
        }
    }
}

/// A fee collection at `now`: the new record and the fees taken. Fees larger than the
/// vault's assets are not taken at all.
pub open spec fn collect_fees_transition(v: VaultState, now: i64) -> Result<
    (VaultState, FeeCollection),
    DeltaNeutralVaultError,
> {
    let elapsed = now - v.last_fee_collection_time;
    let management = management_fee_value(
        v.total_assets as int,
        v.management_fee as int,
        elapsed,
    );
    let performance = performance_fee_value(
        v.total_assets as int,
        v.net_deposits as int,
        v.performance_fee as int,
    );
    let total = management + performance;
    if !fits_i64(elapsed) || management > u64::MAX || performance > u64::MAX {
        Err(DeltaNeutralVaultError::ArithmeticOverflow)
    } else if total > v.total_assets {
        Ok((v, FeeCollection { management_fees: 0, performance_fees: 0, total_fees: 0 }))
    } else if v.total_fees_collected + total > u64::MAX {
        Err(DeltaNeutralVaultError::ArithmeticOverflow)
    } else {
        Ok(
            (
                VaultState {
                    total_assets: (v.total_assets - total) as u64,
                    total_fees_collected: (v.total_fees_collected + total) as u64,
                    last_fee_collection_time: now,
                    ..v
                },
                FeeCollection {
                    management_fees: management as u64,
                    performance_fees: performance as u64,
                    total_fees: total as u64,
                },
            ),
        )
    }
}

/// A parameter update by `caller`: each given value replaces the current one, a new
/// rebalance threshold also becoming the delta threshold.
pub open spec fn params_update(
    v: VaultState,
    caller: [u8; 32],
    target_leverage: Option<u8>,
    rebalance_threshold: Option<u16>,
    max_slippage: Option<u16>,
) -> Result<(VaultState, ()), DeltaNeutralVaultError> {
    if !is_admin(v, caller) {
        Err(DeltaNeutralVaultError::Unauthorized)
    } else if target_leverage matches Some(l) && !(1 <= l <= MAX_LEVERAGE) {
        Err(DeltaNeutralVaultError::InvalidParameter)
    } else if rebalance_threshold matches Some(t) && !(MIN_REBALANCE_THRESHOLD_BPS <= t
        <= MAX_REBALANCE_THRESHOLD_BPS) {
        Err(DeltaNeutralVaultError::InvalidParameter)
    } else if max_slippage matches Some(s) && !(s <= MAX_SLIPPAGE_BPS) {
        Err(DeltaNeutralVaultError::InvalidParameter)
    } else {
        let leverage = match target_leverage {
            Some(l) => l,
            None => v.target_leverage,
        };
        let threshold = match rebalance_threshold {
            Some(t) => t,
            None => v.rebalance_threshold,
        };
        let delta_threshold = match rebalance_threshold {
            Some(t) => t,
            None => v.delta_threshold,
        };
        let slippage = match max_slippage {
            Some(s) => s,
            None => v.max_slippage,
        };
        Ok(
            (
                VaultState {
                    target_leverage: leverage,
                    rebalance_threshold: threshold,
                    delta_threshold,
                    max_slippage: slippage,
                    ..v
                },
                (),
            ),
        )
    }
}

/// Opening a position of `size` on the side that `direction` encodes (0 long, 1 short).
pub open spec fn open_transition(v: VaultState, size: u64, direction: u8) -> Result<
    (VaultState, PositionDirection),
    DeltaNeutralVaultError,
> {
    if v.emergency_stop {
        Err(DeltaNeutralVaultError::EmergencyStopActive)
    } else if direction > 1 {
        Err(DeltaNeutralVaultError::InvalidPositionDirection)
    } else {
        let (action, side) = if direction == 0 {
            (HedgeAction::IncreaseLong, PositionDirection::Long)
        } else {
            (HedgeAction::IncreaseShort, PositionDirection::Short)
        };
        match positions_after(v, action, size) {
            Some(next) => Ok((next, side)),
            None => Err(DeltaNeutralVaultError::ArithmeticOverflow),
        }
    }
}

/// Closing `size` of the open position: the long one if any, else the short one.
pub open spec fn close_transition(v: VaultState, size: u64) -> Result<
    (VaultState, PositionDirection),
    DeltaNeutralVaultError,
> {
    if v.emergency_stop {
        Err(DeltaNeutralVaultError::EmergencyStopActive)
    } else if v.long_position <= 0 && v.short_position >= 0 {
        Err(DeltaNeutralVaultError::NoPositionToClose)
    } else {
        let (action, side) = if v.long_position > 0 {
            (HedgeAction::ReduceLong, PositionDirection::Long)
        } else {
            (HedgeAction::ReduceShort, PositionDirection::Short)
        };
        match positions_after(v, action, size) {
            Some(next) => Ok((next, side)),
            None => Err(DeltaNeutralVaultError::ArithmeticOverflow),
        }
    }
}

/// Compares two keys byte by byte.
fn same_key(a: &[u8; 32], b: &[u8; 32]) -> (r: bool)
    ensures
        r == (*a == *b),
{
    let mut i: usize = 0;
    while i < 32
        invariant
            0 <= i <= 32,
            forall|j: int| 0 <= j < i ==> a[j] == b[j],
        decreases 32 - i,
    {
        if a[i] != b[i] {
            return false;
        }
        i = i + 1;
    }
    assert(*a =~= *b);
    true
}

/// Moves the positions as `action` prescribes, refusing a move that leaves the `i64` range.
fn apply_hedge_action(vault_state: &mut VaultState, action: HedgeAction, amount: u64) -> (r: Result<
    (),
    DeltaNeutralVaultError,
>)
    ensures
        match positions_after(*old(vault_state), action, amount) {
            Some(next) => r == Ok::<(), DeltaNeutralVaultError>(()) && *final(vault_state) == next,
            None => r == Err::<(), DeltaNeutralVaultError>(
                DeltaNeutralVaultError::ArithmeticOverflow,
            ) && *final(vault_state) == *old(vault_state),
        },
{
    let long = vault_state.long_position as i128;
    let short = vault_state.short_position as i128;
    let size = amount as i128;
    let (new_long, new_short) = match action {
        HedgeAction::NoAction => (long, short),
        HedgeAction::IncreaseLong => (long + size, short),
        HedgeAction::ReduceLong => (long - size, short),
        HedgeAction::IncreaseShort => (long, short - size),
        HedgeAction::ReduceShort => (long, short + size),
    };
    if new_long < i64::MIN as i128 || new_long > i64::MAX as i128 || new_short < i64::MIN as i128
        || new_short > i64::MAX as i128 {
        return Err(DeltaNeutralVaultError::ArithmeticOverflow);
    }
    vault_state.long_position = new_long as i64;
    vault_state.short_position = new_short as i64;
    Ok(())
}

/// Creates the record of a new vault administered by `admin`, with empty ledger and
/// positions, default fees, capacity and cooldown, and both clocks at `now`.
pub fn initialize_vault(
    admin: [u8; 32],
    target_leverage: u8,
    rebalance_threshold: u16,
    max_slippage: u16,
    now: i64,
) -> (r: Result<VaultState, DeltaNeutralVaultError>)
    ensures
        r == initial_state(admin, target_leverage, rebalance_threshold, max_slippage, now),
{
    match validate_vault_params(
        target_leverage,
        rebalance_threshold,
        max_slippage,
        DEFAULT_MANAGEMENT_FEE_BPS,
        DEFAULT_PERFORMANCE_FEE_BPS,
    ) {
        Ok(()) => {},
        Err(e) => return Err(e),
    }
    Ok(
        VaultState {
            admin,
            target_leverage,
            rebalance_threshold,
            max_slippage,
            total_assets: 0,
            total_shares: 0,
            long_position: 0,
            short_position: 0,
            total_fees_collected: 0,
            last_rebalance_time: now,
            last_fee_collection_time: now,
            net_deposits: 0,
            emergency_stop: false,
            max_capacity: DEFAULT_MAX_CAPACITY,
            management_fee: DEFAULT_MANAGEMENT_FEE_BPS,
            performance_fee: DEFAULT_PERFORMANCE_FEE_BPS,
            min_rebalance_interval: MIN_REBALANCE_INTERVAL,
            delta_threshold: rebalance_threshold,
        },
    )
}

/// Deposits `amount` and returns the shares minted for it.
pub fn deposit(vault_state: &mut VaultState, amount: u64) -> (r: Result<u64, DeltaNeutralVaultError>)
    ensures
        follows(deposit_transition(*old(vault_state), amount), *old(vault_state), *final(vault_state), r),
        old(vault_state).emergency_stop ==> r == Err::<u64, DeltaNeutralVaultError>(
            DeltaNeutralVaultError::EmergencyStopActive,
        ) && *final(vault_state) == *old(vault_state),
{
    if vault_state.emergency_stop {
        return Err(DeltaNeutralVaultError::EmergencyStopActive);
    }
    if amount == 0 {
        return Err(DeltaNeutralVaultError::InvalidAmount);
    }
    if vault_state.total_assets as u128 + amount as u128 > vault_state.max_capacity as u128 {
        return Err(DeltaNeutralVaultError::CapacityExceeded);
    }
    let minted = match calculate_shares_to_mint(
        amount,
        vault_state.total_assets,
        vault_state.total_shares,
    ) {
        Ok(m) => m,
        Err(e) => return Err(e),
    };
    if vault_state.total_shares as u128 + minted as u128 > u64::MAX as u128 {
        return Err(DeltaNeutralVaultError::ArithmeticOverflow);
    }
    if vault_state.net_deposits as i128 + amount as i128 > i64::MAX as i128 {
        return Err(DeltaNeutralVaultError::ArithmeticOverflow);
    }
    vault_state.total_assets = vault_state.total_assets + amount;
    vault_state.total_shares = vault_state.total_shares + minted;
    vault_state.net_deposits = (vault_state.net_deposits as i128 + amount as i128) as i64;
    Ok(minted)
}

/// Burns `shares` and returns the assets paid out for them.
pub fn withdraw(vault_state: &mut VaultState, shares: u64) -> (r: Result<u64, DeltaNeutralVaultError>)
    ensures
        follows(withdraw_transition(*old(vault_state), shares), *old(vault_state), *final(vault_state), r),
        old(vault_state).emergency_stop ==> r == Err::<u64, DeltaNeutralVaultError>(
            DeltaNeutralVaultError::EmergencyStopActive,
        ) && *final(vault_state) == *old(vault_state),
{
    if vault_state.emergency_stop {
        return Err(DeltaNeutralVaultError::EmergencyStopActive);
    }
    if shares == 0 || shares > vault_state.total_shares {
        return Err(DeltaNeutralVaultError::InsufficientShares);
    }
    if (vault_state.total_shares == 0) != (vault_state.total_assets == 0) {
        return Err(DeltaNeutralVaultError::CorruptedLedger);
    }
    proof {
        lemma_mul_div_le(vault_state.total_assets as int, shares as int, vault_state.total_shares as int);
        lemma_mul_is_commutative(vault_state.total_assets as int, shares as int);
    }
    let assets = match calculate_withdrawal_amount(
        shares,
        vault_state.total_assets,
        vault_state.total_shares,
    ) {
        Ok(a) => a,
        Err(e) => return Err(e),
    };
    if assets > vault_state.total_assets {
        return Err(DeltaNeutralVaultError::InsufficientLiquidity);
    }
    if (vault_state.net_deposits as i128) - (assets as i128) < i64::MIN as i128 {
        return Err(DeltaNeutralVaultError::ArithmeticOverflow);
    }
    vault_state.total_assets = vault_state.total_assets - assets;
    vault_state.total_shares = vault_state.total_shares - shares;
    vault_state.net_deposits = (vault_state.net_deposits as i128 - assets as i128) as i64;
    Ok(assets)
}

/// Runs the rebalance policy at `now` and, when it calls for a hedge, books the hedge's
/// effect on the positions and restarts the cooldown. The returned hedge is the order for
/// the venue; a caller that cannot execute it discards the new record.
pub fn rebalance(vault_state: &mut VaultState, now: i64) -> (r: Result<
    HedgeCalculation,
    DeltaNeutralVaultError,
>)
    ensures
        follows(rebalance_transition(*old(vault_state), now), *old(vault_state), *final(vault_state), r),
        old(vault_state).emergency_stop ==> r == Err::<HedgeCalculation, DeltaNeutralVaultError>(
            DeltaNeutralVaultError::EmergencyStopActive,
        ) && *final(vault_state) == *old(vault_state),
{
    if vault_state.emergency_stop {
        return Err(DeltaNeutralVaultError::EmergencyStopActive);
    }
    if !vault_state.can_rebalance(now) {
        return Err(DeltaNeutralVaultError::RebalanceCooldownActive);
    }
    let needed = match vault_state.needs_rebalance() {
        Ok(b) => b,
        Err(e) => return Err(e),
    };
    if !needed {
        return Err(DeltaNeutralVaultError::RebalanceNotNeeded);
    }
    let hedge = match vault_state.calculate_required_hedge() {
        Ok(h) => h,
        Err(e) => return Err(e),
    };
    if let HedgeAction::NoAction = hedge.action {
        return Err(DeltaNeutralVaultError::RebalanceNotNeeded);
    }
    match apply_hedge_action(vault_state, hedge.action, hedge.amount) {
        Ok(()) => {},
        Err(e) => return Err(e),
    }
    vault_state.last_rebalance_time = now;
    Ok(hedge)
}

/// Accrues the management fee since the last collection and the performance fee, and takes
/// them out of the vault's assets at `now`. Allowed while the vault is paused.
pub fn collect_fees(vault_state: &mut VaultState, now: i64) -> (r: Result<
    FeeCollection,
    DeltaNeutralVaultError,
>)
    ensures
        follows(collect_fees_transition(*old(vault_state), now), *old(vault_state), *final(vault_state), r),
{
    let elapsed = now as i128 - vault_state.last_fee_collection_time as i128;
    if elapsed < i64::MIN as i128 || elapsed > i64::MAX as i128 {
        return Err(DeltaNeutralVaultError::ArithmeticOverflow);
    }
    let management = match calculate_management_fees(
        vault_state.total_assets,
        vault_state.management_fee,
        elapsed as i64,
    ) {
        Ok(f) => f,
        Err(e) => return Err(e),
    };
    let performance = match calculate_performance_fees(
        vault_state.total_assets,
        vault_state.net_deposits,
        vault_state.performance_fee,
    ) {
        Ok(f) => f,
        Err(e) => return Err(e),
    };
    let total = management as u128 + performance as u128;
    if total > vault_state.total_assets as u128 {
        return Ok(FeeCollection { management_fees: 0, performance_fees: 0, total_fees: 0 });
    }
    if vault_state.total_fees_collected as u128 + total > u64::MAX as u128 {
        return Err(DeltaNeutralVaultError::ArithmeticOverflow);
    }
    vault_state.total_assets = vault_state.total_assets - total as u64;
    vault_state.total_fees_collected = vault_state.total_fees_collected + total as u64;
    vault_state.last_fee_collection_time = now;
    Ok(
        FeeCollection {
            management_fees: management,
            performance_fees: performance,
            total_fees: total as u64,
        },
    )
}

/// Pauses the vault; only its admin may. Pausing a paused vault changes nothing.
pub fn emergency_stop(vault_state: &mut VaultState, caller: &[u8; 32]) -> (r: Result<
    (),
    DeltaNeutralVaultError,
>)
    ensures
        is_admin(*old(vault_state), *caller) ==> r == Ok::<(), DeltaNeutralVaultError>(())
            && *final(vault_state) == (VaultState { emergency_stop: true, ..*old(vault_state) }),
        !is_admin(*old(vault_state), *caller) ==> r == Err::<(), DeltaNeutralVaultError>(
            DeltaNeutralVaultError::Unauthorized,
        ) && *final(vault_state) == *old(vault_state),
{
    if !same_key(&vault_state.admin, caller) {
        return Err(DeltaNeutralVaultError::Unauthorized);
    }
    vault_state.emergency_stop = true;
    Ok(())
}

/// Lifts a pause; only the admin may.
pub fn resume_vault(vault_state: &mut VaultState, caller: &[u8; 32]) -> (r: Result<
    (),
    DeltaNeutralVaultError,
>)
    ensures
        is_admin(*old(vault_state), *caller) ==> r == Ok::<(), DeltaNeutralVaultError>(())
            && *final(vault_state) == (VaultState { emergency_stop: false, ..*old(vault_state) }),
        !is_admin(*old(vault_state), *caller) ==> r == Err::<(), DeltaNeutralVaultError>(
            DeltaNeutralVaultError::Unauthorized,
        ) && *final(vault_state) == *old(vault_state),
{
    if !same_key(&vault_state.admin, caller) {
        return Err(DeltaNeutralVaultError::Unauthorized);
    }
    vault_state.emergency_stop = false;
    Ok(())
}

/// Replaces the given parameters after checking each against its bounds; only the admin
/// may. Nothing changes unless every given value is accepted.
pub fn update_vault_params(
    vault_state: &mut VaultState,
    caller: &[u8; 32],
    target_leverage: Option<u8>,
    rebalance_threshold: Option<u16>,
    max_slippage: Option<u16>,
) -> (r: Result<(), DeltaNeutralVaultError>)
    ensures
        follows(
            params_update(*old(vault_state), *caller, target_leverage, rebalance_threshold, max_slippage),
            *old(vault_state),
            *final(vault_state),
            r,
        ),
{
    if !same_key(&vault_state.admin, caller) {
        return Err(DeltaNeutralVaultError::Unauthorized);
    }
    if let Some(leverage) = target_leverage {
        if leverage == 0 || leverage > MAX_LEVERAGE {
            return Err(DeltaNeutralVaultError::InvalidParameter);
        }
    }
    if let Some(threshold) = rebalance_threshold {
        if threshold < MIN_REBALANCE_THRESHOLD_BPS || threshold > MAX_REBALANCE_THRESHOLD_BPS {
            return Err(DeltaNeutralVaultError::InvalidParameter);
        }
    }
    if let Some(slippage) = max_slippage {
        if slippage > MAX_SLIPPAGE_BPS {
            return Err(DeltaNeutralVaultError::InvalidParameter);
        }
    }
    if let Some(leverage) = target_leverage {
        vault_state.target_leverage = leverage;
    }
    if let Some(threshold) = rebalance_threshold {
        vault_state.rebalance_threshold = threshold;
        vault_state.delta_threshold = threshold;
    }
    if let Some(slippage) = max_slippage {
        vault_state.max_slippage = slippage;
    }
    Ok(())
}

/// Books a new position of `size` on the side that `direction` encodes (0 long, 1 short)
/// and returns that side.
pub fn open_position(vault_state: &mut VaultState, size: u64, direction: u8) -> (r: Result<
    PositionDirection,
    DeltaNeutralVaultError,
>)
    ensures
        follows(open_transition(*old(vault_state), size, direction), *old(vault_state), *final(vault_state), r),
{
    if vault_state.emergency_stop {
        return Err(DeltaNeutralVaultError::EmergencyStopActive);
    }
    let (action, side) = match direction {
        0 => (HedgeAction::IncreaseLong, PositionDirection::Long),
        1 => (HedgeAction::IncreaseShort, PositionDirection::Short),
        _ => return Err(DeltaNeutralVaultError::InvalidPositionDirection),
    };
    match apply_hedge_action(vault_state, action, size) {
        Ok(()) => Ok(side),
        Err(e) => Err(e),
    }
}

/// Books the closing of `size` of the open position, the long one if any, else the short
/// one, and returns its side.
pub fn close_position(vault_state: &mut VaultState, size: u64) -> (r: Result<
    PositionDirection,
    DeltaNeutralVaultError,
>)
    ensures
        follows(close_transition(*old(vault_state), size), *old(vault_state), *final(vault_state), r),
{
    if vault_state.emergency_stop {
        return Err(DeltaNeutralVaultError::EmergencyStopActive);
    }
    let (action, side) = if vault_state.long_position > 0 {
        (HedgeAction::ReduceLong, PositionDirection::Long)
    } else if vault_state.short_position < 0 {
        (HedgeAction::ReduceShort, PositionDirection::Short)
    } else {
        return Err(DeltaNeutralVaultError::NoPositionToClose);
    };
    match apply_hedge_action(vault_state, action, size) {
        Ok(()) => Ok(side),
        Err(e) => Err(e),
    }
}

} // verus!
