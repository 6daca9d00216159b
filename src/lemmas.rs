//! Properties that relate several operations on the vault record.
use vstd::arithmetic::div_mod::lemma_div_by_multiple;
use vstd::prelude::*;

use crate::errors::DeltaNeutralVaultError;
use crate::instructions::{deposit_transition, rebalance_transition, withdraw_transition};
use crate::math::lemma_div_monotone;
use crate::state::{HedgeCalculation, VaultState};
use crate::utils::{assets_for_shares, delta_bps_value, shares_for_deposit};

verus! {

/// Burning the shares minted for a deposit never pays out more than the deposit: both
/// directions floor, so a round trip cannot create value.
pub proof fn lemma_mint_redeem_never_gains(amount: int, total_assets: int, total_shares: int)
    requires
        amount > 0,
        total_assets >= 0,
        total_shares >= 0,
        (total_shares == 0) == (total_assets == 0),
    ensures
        ({
            let minted = shares_for_deposit(amount, total_assets, total_shares);
            assets_for_shares(minted, total_assets + amount, total_shares + minted) <= amount
        }),
{
    let minted = shares_for_deposit(amount, total_assets, total_shares);
    if total_shares == 0 {
        assert(minted * (total_assets + amount) == amount * amount);
        lemma_div_by_multiple(amount, amount);
    } else {
        let x = amount * total_shares;
        assert(minted * total_assets <= x) by (nonlinear_arith)
            requires
                minted == x / total_assets,
                total_assets > 0,
        ;
        assert(0 <= minted) by (nonlinear_arith)
            requires
                minted == x / total_assets,
                total_assets > 0,
                x >= 0,
        ;
        assert(minted * (total_assets + amount) <= amount * (total_shares + minted))
            by (nonlinear_arith)
            requires
                minted * total_assets <= amount * total_shares,
        ;
        lemma_div_monotone(
            minted * (total_assets + amount),
            amount * (total_shares + minted),
            total_shares + minted,
        );
        lemma_div_by_multiple(amount, total_shares + minted);
    }
}

/// Depositing `amount` and then withdrawing exactly the shares that the deposit minted
/// returns at most `amount`.
pub proof fn lemma_deposit_withdraw_round_trip(v: VaultState, amount: u64)
    requires
        deposit_transition(v, amount) is Ok,
    ensures
        ({
            let (after_deposit, minted) = deposit_transition(v, amount)->Ok_0;
            withdraw_transition(after_deposit, minted) is Ok ==> withdraw_transition(
                after_deposit,
                minted,
            )->Ok_0.1 <= amount
        }),
{
    lemma_mint_redeem_never_gains(amount as int, v.total_assets as int, v.total_shares as int);
}

/// Two rebalances at the same instant: when the first one acts, the hedge brings the net
/// exposure to zero and restarts the cooldown, so the second one is refused, by the
/// cooldown if there is one and otherwise because no rebalance is needed.
pub proof fn lemma_rebalance_twice(v: VaultState, now: i64)
    requires
        rebalance_transition(v, now) is Ok,
    ensures
        ({
            let after = rebalance_transition(v, now)->Ok_0.0;
            &&& after.last_rebalance_time == now
            &&& after.delta() == 0
            &&& v.min_rebalance_interval > 0 ==> rebalance_transition(after, now) == Err::<
                (VaultState, HedgeCalculation),
                DeltaNeutralVaultError,
            >(DeltaNeutralVaultError::RebalanceCooldownActive)
            &&& v.min_rebalance_interval <= 0 ==> rebalance_transition(after, now) == Err::<
                (VaultState, HedgeCalculation),
                DeltaNeutralVaultError,
            >(DeltaNeutralVaultError::RebalanceNotNeeded)
        }),
{
    let after = rebalance_transition(v, now)->Ok_0.0;
    if after.total_assets != 0 {
        assert(delta_bps_value(0, after.total_assets as int) == 0) by (nonlinear_arith)
            requires
                after.total_assets > 0,
        ;
    }
}

/// Deposits and withdrawals keep shares and assets agreeing on whether the vault is empty:
/// a vault is emptied only by burning every share, which returns every asset.
pub proof fn lemma_ledger_stays_consistent(v: VaultState, amount: u64)
    ensures
        deposit_transition(v, amount) is Ok ==> deposit_transition(
            v,
            amount,
        )->Ok_0.0.ledger_consistent(),
        withdraw_transition(v, amount) is Ok ==> withdraw_transition(
            v,
            amount,
        )->Ok_0.0.ledger_consistent(),
{
    if withdraw_transition(v, amount) is Ok {
        let shares = amount as int;
        let ta = v.total_assets as int;
        let ts = v.total_shares as int;
        if shares == ts {
            lemma_div_by_multiple(ta, ts);
            assert(shares * ta == ta * ts) by (nonlinear_arith)
                requires
                    shares == ts,
            ;
        } else {
            assert(shares * ta <= (ts - 1) * ta) by (nonlinear_arith)
                requires
                    shares <= ts - 1,
                    ta >= 0,
            ;
            assert((ts - 1) * ta == ta * ts - ta) by (nonlinear_arith);
            lemma_div_monotone(shares * ta, ta * ts - ta, ts);
            assert((ta * ts - ta) / ts < ta) by (nonlinear_arith)
                requires
                    ts > 0,
                    ta > 0,
            ;
        }
    }
}

} // verus!
