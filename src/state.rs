//! The vault record and the hedge decision derived from it.
use vstd::prelude::*;

use crate::constants::DUST_THRESHOLD;
use crate::errors::DeltaNeutralVaultError;
use crate::math::{abs, abs_i128, checked_u64, fits_i64};
use crate::utils::{
    calculate_delta_percentage, calculate_share_price, delta_bps_value, share_price_value,
};

verus! {

/// The single mutable record of one vault: parameters, share ledger, exposure and the
/// emergency flag.
#[derive(Debug, Clone, Copy, PartialEq, Eq)]
pub struct VaultState {
    /// Key of the principal allowed to pause, resume and reconfigure the vault.
    pub admin: [u8; 32],
    /// Target leverage (1 to 10).
    pub target_leverage: u8,
    /// Rebalance threshold, in basis points.
    pub rebalance_threshold: u16,
    /// Slippage tolerated on hedge orders, in basis points.
    pub max_slippage: u16,
    /// Assets under management.
    pub total_assets: u64,
    /// Shares outstanding.
    pub total_shares: u64,
    /// Size of the long position.
    pub long_position: i64,
    /// Size of the short position, stored as a negative magnitude.
    pub short_position: i64,
    /// Fees taken out of the vault so far.
    pub total_fees_collected: u64,
    /// Time of the last rebalance, in seconds.
    pub last_rebalance_time: i64,
    /// Time of the last fee collection, in seconds.
    pub last_fee_collection_time: i64,
    /// Deposits less withdrawals.
    pub net_deposits: i64,
    /// Whether deposits, withdrawals, rebalances and position changes are refused.
    pub emergency_stop: bool,
    /// Ceiling on the vault's assets.
    pub max_capacity: u64,
    /// Annual management fee, in basis points.
    pub management_fee: u16,
    /// Performance fee, in basis points.
    pub performance_fee: u16,
    /// Cooldown between rebalances, in seconds.
    pub min_rebalance_interval: i64,
    /// Net exposure, in basis points of the vault's value, above which a rebalance is due.
    pub delta_threshold: u16,
}

/// The adjustment that brings the net exposure back toward zero.
#[derive(Debug, Clone, Copy, PartialEq, Eq, Structural)]
pub enum HedgeAction {
    NoAction,
    IncreaseLong,
    IncreaseShort,
    ReduceLong,
    ReduceShort,
}

/// The side of an order or a position.
#[derive(Debug, Clone, Copy, PartialEq, Eq, Structural)]
pub enum PositionDirection {
    Long,
    Short,
}

/// A hedge to execute: what to do, how much, and on which side the order goes.
#[derive(Debug, Clone, Copy, PartialEq, Eq, Structural)]
pub struct HedgeCalculation {
    pub action: HedgeAction,
    pub amount: u64,
    pub direction: PositionDirection,
}

/// The hedge for a net exposure `delta`: nothing below the dust threshold, otherwise an
/// order of `|delta|` on the offsetting side.
pub open spec fn hedge_for_delta(delta: int) -> HedgeCalculation {
    if abs(delta) < DUST_THRESHOLD {
        HedgeCalculation { action: HedgeAction::NoAction, amount: 0, direction: PositionDirection::Long }
    } else if delta > 0 {
        HedgeCalculation {
            action: HedgeAction::IncreaseShort,
            amount: abs(delta) as u64,
            direction: PositionDirection::Short,
        }
    } else {
        HedgeCalculation {
            action: HedgeAction::IncreaseLong,
            amount: abs(delta) as u64,
            direction: PositionDirection::Long,
        }
    }
}

impl VaultState {
    /// Net exposure: the long position plus the (negative) short position.
    pub open spec fn delta(self) -> int {
        self.long_position + self.short_position
    }

    /// Shares and assets agree on whether the vault is empty.
    pub open spec fn ledger_consistent(self) -> bool {
        (self.total_shares == 0) == (self.total_assets == 0)
    }

    /// Whether the cooldown since the last rebalance has elapsed at `now`.
    pub open spec fn cooldown_elapsed(self, now: i64) -> bool {
        now - self.last_rebalance_time >= self.min_rebalance_interval
    }

    /// Whether the net exposure exceeds the delta threshold.
    pub open spec fn spec_needs_rebalance(self) -> bool {
        delta_bps_value(self.delta(), self.total_assets as int) > self.delta_threshold
    }

    /// The net exposure, refused when it does not fit an `i64`.
    pub fn calculate_delta(&self) -> (r: Result<i64, DeltaNeutralVaultError>)
        ensures
            fits_i64(self.delta()) ==> r == Ok::<i64, DeltaNeutralVaultError>(
                self.delta() as i64,
            ),
            !fits_i64(self.delta()) ==> r == Err::<i64, DeltaNeutralVaultError>(
                DeltaNeutralVaultError::ArithmeticOverflow,
            ),
    {
        let delta = self.long_position as i128 + self.short_position as i128;
        if delta < i64::MIN as i128 || delta > i64::MAX as i128 {
            Err(DeltaNeutralVaultError::ArithmeticOverflow)
        } else {
            Ok(delta as i64)
        }
    }

    /// The value the vault manages: its assets.
    pub fn calculate_total_value(&self) -> (r: Result<u64, DeltaNeutralVaultError>)
        ensures
            r == Ok::<u64, DeltaNeutralVaultError>(self.total_assets),
    {
        Ok(self.total_assets)
    }

    /// Assets per share, scaled by `PRICE_PRECISION` and floored.
    pub fn calculate_share_price(&self) -> (r: Result<u64, DeltaNeutralVaultError>)
        ensures
            r == checked_u64(
                share_price_value(self.total_assets as int, self.total_shares as int),
            ),
    {
        calculate_share_price(self.total_assets, self.total_shares)
    }

    /// Whether the net exposure, in basis points of the vault's value, exceeds the delta
    /// threshold.
    pub fn needs_rebalance(&self) -> (r: Result<bool, DeltaNeutralVaultError>)
        ensures
            r == Ok::<bool, DeltaNeutralVaultError>(self.spec_needs_rebalance()),
    {
        let delta_percentage = calculate_delta_percentage(
            self.long_position,
            self.short_position,
            self.total_assets,
        );
        match delta_percentage {
            Ok(bps) => Ok(bps > self.delta_threshold),
            Err(e) => Err(e),
        }
    }

    /// Whether a rebalance may run at `current_time`: the vault is not paused and the
    /// cooldown has elapsed.
    pub fn can_rebalance(&self, current_time: i64) -> (r: bool)
        ensures
            r == (!self.emergency_stop && self.cooldown_elapsed(current_time)),
    {
        if self.emergency_stop {
            return false;
        }
        current_time as i128 - self.last_rebalance_time as i128
            >= self.min_rebalance_interval as i128
    }

    /// The hedge that the current net exposure calls for.
    pub fn calculate_required_hedge(&self) -> (r: Result<HedgeCalculation, DeltaNeutralVaultError>)
        ensures
            fits_i64(self.delta()) ==> r == Ok::<HedgeCalculation, DeltaNeutralVaultError>(
                hedge_for_delta(self.delta()),
            ),
            !fits_i64(self.delta()) ==> r == Err::<HedgeCalculation, DeltaNeutralVaultError>(
                DeltaNeutralVaultError::ArithmeticOverflow,
            ),
    {
        let delta = match self.calculate_delta() {
            Ok(d) => d,
            Err(e) => return Err(e),
        };
        let magnitude = abs_i128(delta as i128);
        if magnitude < DUST_THRESHOLD as u128 {
            return Ok(
                HedgeCalculation {
                    action: HedgeAction::NoAction,
                    amount: 0,
                    direction: PositionDirection::Long,
                },
            );
        }
        if delta > 0 {
            Ok(
                HedgeCalculation {
                    action: HedgeAction::IncreaseShort,
                    amount: magnitude as u64,
                    direction: PositionDirection::Short,
                },
            )
        } else {
            Ok(
                HedgeCalculation {
                    action: HedgeAction::IncreaseLong,
                    amount: magnitude as u64,
                    direction: PositionDirection::Long,
                },
            )
        }
    }
}

} // verus!
