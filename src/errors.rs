use vstd::prelude::*;

verus! {

/// Every way an operation on the vault can be refused.
///
/// A refused operation leaves the vault record exactly as it was.
#[derive(Debug, Clone, Copy, PartialEq, Eq, Structural)]
pub enum DeltaNeutralVaultError {
    /// A vault parameter lies outside its accepted bounds.
    InvalidParameter,
    /// A deposit of nothing.
    InvalidAmount,
    /// The deposit would take the vault above its capacity.
    CapacityExceeded,
    /// The vault is paused.
    EmergencyStopActive,
    /// A withdrawal of no shares, or of more shares than exist.
    InsufficientShares,
    /// The vault holds fewer assets than a withdrawal would return.
    InsufficientLiquidity,
    /// The cooldown since the last rebalance has not elapsed.
    RebalanceCooldownActive,
    /// The net exposure does not call for a hedge.
    RebalanceNotNeeded,
    /// A result does not fit its integer type.
    ArithmeticOverflow,
    /// Shares and assets disagree on whether the vault is empty.
    CorruptedLedger,
    /// No position is held in the requested market.
    MarketNotFound,
    /// The market data cannot support the computation.
    InvalidMarketState,
    /// The execution price moved further than the tolerance allows.
    SlippageExceeded,
    /// A token transfer or a venue call failed.
    CollaboratorFailure,
    /// The caller is not the vault's admin.
    Unauthorized,
    /// A direction code other than long (0) or short (1).
    InvalidPositionDirection,
    /// There is no open position to close.
    NoPositionToClose,
    /// A price text that is not a decimal number.
    InvalidPriceFormat,
}

} // verus!
