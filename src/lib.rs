//! Accounting and hedge-decision core of a market-neutral pooled vault.
pub mod constants;
pub mod errors;
pub mod hedging;
pub mod instructions;
pub mod lemmas;
pub mod math;
pub mod price;
pub mod state;
pub mod utils;

pub use errors::DeltaNeutralVaultError;
pub use state::{HedgeAction, HedgeCalculation, PositionDirection, VaultState};
