//! The withdraw orchestrator: validates a withdrawal request, computes the
//! asset amounts owed from the curve, moves both assets out of the vaults
//! and burns LP tokens — all or nothing.

use vstd::prelude::*;
use vstd::arithmetic::div_mod::lemma_div_by_multiple;
use crate::constants::LP_DECIMALS;
use crate::curve;
use crate::curve::lemma_round_trip_bound;
use crate::curve::lemma_withdraw_amount_bounds;
use crate::curve::lemma_withdraw_preserves_share_value;
use crate::curve::withdraw_amounts_in_range;
use crate::error::AmmError;
use crate::instructions::deposit::Deposit;
use crate::state::Config;
use crate::state::assert_unlocked;

verus! {

/// The balances a withdrawal touches: the pool record, the pool's custodial
/// vaults and LP supply, and the calling user's asset and LP balances.
#[derive(Clone, Copy, Debug, PartialEq, Eq)]
pub struct Withdraw {
    /// The pool's configuration record.
    pub config: Config,
    /// Balance of the pool's X-asset vault.
    pub vault_x: u64,
    /// Balance of the pool's Y-asset vault.
    pub vault_y: u64,
    /// Total supply of the pool's LP token.
    pub lp_supply: u64,
    /// The caller's X-asset balance.
    pub user_ata_x: u64,
    /// The caller's Y-asset balance.
    pub user_ata_y: u64,
    /// The caller's LP-token balance.
    pub user_ata_lp: u64,
}

impl Withdraw {
    /// The pool is fully empty: no shares outstanding and nothing in either
    /// vault.
    pub open spec fn spec_pool_empty(self) -> bool {
        self.lp_supply == 0 && self.vault_x == 0 && self.vault_y == 0
    }

    /// The pool is either fully empty or fully funded: a zero LP supply
    /// coincides exactly with two empty vaults.
    pub open spec fn spec_wf(self) -> bool {
        (self.lp_supply == 0) <==> (self.vault_x == 0 && self.vault_y == 0)
    }

    /// The X amount burning `amount` shares pays out: the caller's own floor
    /// on an empty pool (a defensive path that can never complete), the
    /// curve's rounded-down share of the X reserve otherwise.
    pub open spec fn spec_withdraw_x(self, amount: u64, min_x: u64) -> int {
        if self.spec_pool_empty() {
            min_x as int
        } else {
            (self.vault_x * amount) / (self.lp_supply as int)
        }
    }

    /// The Y amount burning `amount` shares pays out.
    pub open spec fn spec_withdraw_y(self, amount: u64, min_y: u64) -> int {
        if self.spec_pool_empty() {
            min_y as int
        } else {
            (self.vault_y * amount) / (self.lp_supply as int)
        }
    }

    /// The curve math succeeds: the pool is empty (no curve call), or the
    /// supply is positive and both computed amounts fit in a 64-bit balance.
    pub open spec fn spec_curve_ok(self, amount: u64) -> bool {
        self.spec_pool_empty() || (self.lp_supply > 0 && withdraw_amounts_in_range(
            self.vault_x,
            self.vault_y,
            self.lp_supply,
            amount,
        ))
    }

    /// The custody layer can carry out every move of the withdrawal: the
    /// vaults hold both asset amounts, neither user balance would overflow,
    /// and the caller holds — and the supply covers — the shares to burn.
    pub open spec fn spec_withdraw_feasible(self, amount: u64, x: int, y: int) -> bool {
        &&& self.vault_x >= x
        &&& self.vault_y >= y
        &&& self.user_ata_x + x <= u64::MAX
        &&& self.user_ata_y + y <= u64::MAX
        &&& amount <= self.user_ata_lp
        &&& amount <= self.lp_supply
    }

    /// The exact outcome of `withdraw`, error by error, in the order the
    /// orchestrator checks them.
    pub open spec fn spec_withdraw_outcome(self, amount: u64, min_x: u64, min_y: u64) -> Result<
        (),
        AmmError,
    > {
        let x = self.spec_withdraw_x(amount, min_x);
        let y = self.spec_withdraw_y(amount, min_y);
        if self.config.locked {
            Err(AmmError::PoolLocked)
        } else if self.user_ata_lp == 0 {
            Err(AmmError::NoLiquidityInPool)
        } else if amount == 0 {
            Err(AmmError::InvalidAmount)
        } else if !self.spec_curve_ok(amount) {
            Err(AmmError::CurveArithmeticError)
        } else if !(x >= min_x && y >= min_y) {
            Err(AmmError::SlippageExceeded)
        } else if !self.spec_withdraw_feasible(amount, x, y) {
            Err(AmmError::TransferError)
        } else {
            Ok(())
        }
    }

    /// Burns `amount` LP tokens and pays out the assets they are worth. The
    /// caller's bounds only guard against slippage; the curve fixes the
    /// amounts. Any failure leaves every balance exactly as it was.
    pub fn withdraw(&mut self, amount: u64, min_x: u64, min_y: u64) -> (r: Result<(), AmmError>)
        ensures
            r == old(self).spec_withdraw_outcome(amount, min_x, min_y),
            r is Err ==> *final(self) == *old(self),
            r is Ok ==> ({
                let x = old(self).spec_withdraw_x(amount, min_x);
                let y = old(self).spec_withdraw_y(amount, min_y);
                &&& final(self).config == old(self).config
                &&& final(self).vault_x == old(self).vault_x - x
                &&& final(self).vault_y == old(self).vault_y - y
                &&& final(self).lp_supply == old(self).lp_supply - amount
                &&& final(self).user_ata_x == old(self).user_ata_x + x
                &&& final(self).user_ata_y == old(self).user_ata_y + y
                &&& final(self).user_ata_lp == old(self).user_ata_lp - amount
            }),
            r is Ok && old(self).spec_wf() ==> final(self).spec_wf(),
    {
        match assert_unlocked(&self.config) {
            Ok(()) => {},
            Err(e) => {
                return Err(e);
            },
        }
        if self.user_ata_lp == 0 {
            return Err(AmmError::NoLiquidityInPool);
        }
        if amount == 0 {
            return Err(AmmError::InvalidAmount);
        }
        let empty = self.lp_supply == 0 && self.vault_x == 0 && self.vault_y == 0;
        let (x, y): (u64, u64) = if empty {
            // Defensive path: an empty pool implies no one holds LP tokens,
            // so the burn below can never succeed and the operation always
            // aborts unchanged.
            (min_x, min_y)
        } else {
            match curve::withdraw_amounts_from_share(
                self.vault_x,
                self.vault_y,
                self.lp_supply,
                amount,
                LP_DECIMALS,
            ) {
                Ok(amounts) => (amounts.x, amounts.y),
                Err(_) => {
                    return Err(AmmError::CurveArithmeticError);
                },
            }
        };
        if !(x >= min_x && y >= min_y) {
            return Err(AmmError::SlippageExceeded);
        }
        // Check every balance move up front, so the operation is
        // all-or-nothing: no vault is debited unless the burn will succeed
        // too.
        if !(self.vault_x >= x && self.vault_y >= y && x <= u64::MAX - self.user_ata_x && y
            <= u64::MAX - self.user_ata_y && amount <= self.user_ata_lp && amount
            <= self.lp_supply) {
            return Err(AmmError::TransferError);
        }
        proof {
            if !old(self).spec_pool_empty() {
                lemma_withdraw_amount_bounds(
                    old(self).vault_x as int,
                    old(self).lp_supply as int,
                    amount as int,
                );
                lemma_withdraw_amount_bounds(
                    old(self).vault_y as int,
                    old(self).lp_supply as int,
                    amount as int,
                );
            }
        }
        match self.withdraw_tokens(true, x) {
            Ok(()) => {},
            Err(e) => {
                return Err(e);
            },
        }
        match self.withdraw_tokens(false, y) {
            Ok(()) => {},
            Err(e) => {
                return Err(e);
            },
        }
        match self.burn_lp_tokens(amount) {
            Ok(()) => {},
            Err(e) => {
                return Err(e);
            },
        }
        Ok(())
    }

    /// Moves `amount` of one asset from the matching vault to the caller's
    /// balance, under the pool's own signing authority. Fails, moving
    /// nothing, when the vault lacks the funds or the caller's balance
    /// would overflow.
    pub fn withdraw_tokens(&mut self, is_x: bool, amount: u64) -> (r: Result<(), AmmError>)
        ensures
            final(self).config == old(self).config,
            final(self).lp_supply == old(self).lp_supply,
            final(self).user_ata_lp == old(self).user_ata_lp,
            r is Ok <==> (if is_x {
                old(self).vault_x >= amount && old(self).user_ata_x + amount <= u64::MAX
            } else {
                old(self).vault_y >= amount && old(self).user_ata_y + amount <= u64::MAX
            }),
            r is Err ==> *final(self) == *old(self)
                && r == Err::<(), AmmError>(AmmError::TransferError),
            r is Ok && is_x ==> final(self).vault_x == old(self).vault_x - amount
                && final(self).user_ata_x == old(self).user_ata_x + amount
                && final(self).vault_y == old(self).vault_y
                && final(self).user_ata_y == old(self).user_ata_y,
            r is Ok && !is_x ==> final(self).vault_y == old(self).vault_y - amount
                && final(self).user_ata_y == old(self).user_ata_y + amount
                && final(self).vault_x == old(self).vault_x
                && final(self).user_ata_x == old(self).user_ata_x,
    {
        if is_x {
            if self.vault_x >= amount && amount <= u64::MAX - self.user_ata_x {
                self.vault_x = self.vault_x - amount;
                self.user_ata_x = self.user_ata_x + amount;
                Ok(())
            } else {
                Err(AmmError::TransferError)
            }
        } else {
            if self.vault_y >= amount && amount <= u64::MAX - self.user_ata_y {
                self.vault_y = self.vault_y - amount;
                self.user_ata_y = self.user_ata_y + amount;
                Ok(())
            } else {
                Err(AmmError::TransferError)
            }
        }
    }

    /// Burns `amount` LP tokens from the caller's holding under the caller's
    /// own authority, shrinking the supply by the same amount. Fails,
    /// burning nothing, when the caller's holding or the supply does not
    /// cover the amount.
    fn burn_lp_tokens(&mut self, amount: u64) -> (r: Result<(), AmmError>)
        ensures
            final(self).config == old(self).config,
            final(self).vault_x == old(self).vault_x,
            final(self).vault_y == old(self).vault_y,
            final(self).user_ata_x == old(self).user_ata_x,
            final(self).user_ata_y == old(self).user_ata_y,
            r is Ok <==> (amount <= old(self).user_ata_lp && amount <= old(self).lp_supply),
            r is Err ==> *final(self) == *old(self)
                && r == Err::<(), AmmError>(AmmError::TransferError),
            r is Ok ==> final(self).lp_supply == old(self).lp_supply - amount
                && final(self).user_ata_lp == old(self).user_ata_lp - amount,
    {
        if amount <= self.user_ata_lp && amount <= self.lp_supply {
            self.lp_supply = self.lp_supply - amount;
            self.user_ata_lp = self.user_ata_lp - amount;
            Ok(())
        } else {
            Err(AmmError::TransferError)
        }
    }
}

/// Law: a withdrawal that completes never decreases the reserve product per
/// squared LP share — the value backing every remaining share is intact,
/// stated multiplied out to stay in integers.
pub proof fn lemma_withdraw_keeps_share_value(s: Withdraw, amount: u64, min_x: u64, min_y: u64)
    requires
        s.spec_withdraw_outcome(amount, min_x, min_y) is Ok,
    ensures
        (s.vault_x - s.spec_withdraw_x(amount, min_x)) * (s.vault_y - s.spec_withdraw_y(
            amount,
            min_y,
        )) * (s.lp_supply * s.lp_supply) >= (s.vault_x * s.vault_y) * ((s.lp_supply - amount) * (
        s.lp_supply - amount)),
{
    // An empty pool cannot complete a withdrawal: the burn needs
    // amount <= lp_supply == 0 while amount != 0.
    assert(!s.spec_pool_empty());
    lemma_withdraw_preserves_share_value(
        s.vault_x as int,
        s.vault_y as int,
        s.lp_supply as int,
        amount as int,
    );
}

/// Law: withdrawing the very shares a deposit just minted never returns
/// more of either asset than the deposit moved in — the rounding asymmetry
/// (deposits round up, withdrawals round down) never favours the caller.
/// `w` is the pool as the deposit leaves it, seen by the withdrawal.
pub proof fn lemma_round_trip_never_gains(
    s: Deposit,
    amount: u64,
    max_x: u64,
    max_y: u64,
    w: Withdraw,
    min_x: u64,
    min_y: u64,
)
    requires
        s.spec_deposit_outcome(amount, max_x, max_y) is Ok,
        w.vault_x == s.vault_x + s.spec_deposit_x(amount, max_x),
        w.vault_y == s.vault_y + s.spec_deposit_y(amount, max_y),
        w.lp_supply == s.lp_supply + amount,
    ensures
        w.spec_withdraw_x(amount, min_x) <= s.spec_deposit_x(amount, max_x),
        w.spec_withdraw_y(amount, min_y) <= s.spec_deposit_y(amount, max_y),
{
    assert(!w.spec_pool_empty());
    if s.spec_pool_empty() {
        // The bootstrap deposit put in (max_x, max_y) for `amount` shares;
        // burning all `amount` shares pays back exactly those amounts.
        lemma_div_by_multiple(max_x as int, amount as int);
        lemma_div_by_multiple(max_y as int, amount as int);
    } else {
        lemma_round_trip_bound(s.vault_x as int, s.lp_supply as int, amount as int);
        lemma_round_trip_bound(s.vault_y as int, s.lp_supply as int, amount as int);
    }
}

} // verus!
