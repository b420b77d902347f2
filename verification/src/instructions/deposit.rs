//! The deposit orchestrator: validates a deposit request, computes the
//! required asset amounts from the curve, moves both assets into the vaults
//! and mints LP tokens — all or nothing.

use vstd::prelude::*;
use vstd::arithmetic::mul::lemma_mul_nonnegative;
use crate::constants::LP_DECIMALS;
use crate::curve;
use crate::curve::ceil_div;
use crate::curve::deposit_amounts_in_range;
use crate::curve::lemma_deposit_product_non_decreasing;
use crate::error::AmmError;
use crate::state::Config;
use crate::state::assert_unlocked;

verus! {

/// The balances a deposit touches: the pool record, the pool's custodial
/// vaults and LP supply, and the calling user's asset and LP balances.
#[derive(Clone, Copy, Debug, PartialEq, Eq)]
pub struct Deposit {
    /// The pool's configuration record.
    pub config: Config,
    /// Balance of the pool's X-asset vault.
    pub vault_x: u64,
    /// Balance of the pool's Y-asset vault.
    pub vault_y: u64,
    /// Total supply of the pool's LP token.
    pub lp_supply: u64,
    /// The caller's X-asset balance.
    pub user_ata_x: u64,
    /// The caller's Y-asset balance.
    pub user_ata_y: u64,
    /// The caller's LP-token balance.
    pub user_ata_lp: u64,
}

impl Deposit {
    /// The pool is fully empty: no shares outstanding and nothing in either
    /// vault. The first deposit on such a pool sets the initial price.
    pub open spec fn spec_pool_empty(self) -> bool {
        self.lp_supply == 0 && self.vault_x == 0 && self.vault_y == 0
    }

    /// The pool is either fully empty or fully funded: a zero LP supply
    /// coincides exactly with two empty vaults.
    pub open spec fn spec_wf(self) -> bool {
        (self.lp_supply == 0) <==> (self.vault_x == 0 && self.vault_y == 0)
    }

    /// The X amount a deposit of `amount` shares moves into the vault: the
    /// caller's own bound on an empty pool, the curve's rounded-up share of
    /// the X reserve otherwise.
    pub open spec fn spec_deposit_x(self, amount: u64, max_x: u64) -> int {
        if self.spec_pool_empty() {
            max_x as int
        } else {
            ceil_div(self.vault_x * amount, self.lp_supply as int)
        }
    }

    /// The Y amount a deposit of `amount` shares moves into the vault.
    pub open spec fn spec_deposit_y(self, amount: u64, max_y: u64) -> int {
        if self.spec_pool_empty() {
            max_y as int
        } else {
            ceil_div(self.vault_y * amount, self.lp_supply as int)
        }
    }

    /// The curve math succeeds: the pool is empty (bootstrap path, no curve
    /// call), or the supply is positive and both computed amounts fit in a
    /// 64-bit balance.
    pub open spec fn spec_curve_ok(self, amount: u64) -> bool {
        self.spec_pool_empty() || (self.lp_supply > 0 && deposit_amounts_in_range(
            self.vault_x,
            self.vault_y,
            self.lp_supply,
            amount,
        ))
    }

    /// The custody layer can carry out every move of the deposit: the caller
    /// holds both asset amounts, and no vault balance, the LP supply, or the
    /// caller's LP balance would overflow.
    pub open spec fn spec_deposit_feasible(self, amount: u64, x: int, y: int) -> bool {
        &&& self.user_ata_x >= x
        &&& self.user_ata_y >= y
        &&& self.vault_x + x <= u64::MAX
        &&& self.vault_y + y <= u64::MAX
        &&& self.lp_supply + amount <= u64::MAX
        &&& self.user_ata_lp + amount <= u64::MAX
    }

    /// The exact outcome of `deposit`, error by error, in the order the
    /// orchestrator checks them.
    pub open spec fn spec_deposit_outcome(self, amount: u64, max_x: u64, max_y: u64) -> Result<
        (),
        AmmError,
    > {
        let x = self.spec_deposit_x(amount, max_x);
        let y = self.spec_deposit_y(amount, max_y);
        if self.config.locked {
            Err(AmmError::PoolLocked)
        } else if amount == 0 {
            Err(AmmError::InvalidAmount)
        } else if self.spec_pool_empty() && max_x == 0 && max_y == 0 {
            Err(AmmError::InvalidAmount)
        } else if !self.spec_curve_ok(amount) {
            Err(AmmError::CurveArithmeticError)
        } else if !(x <= max_x && y <= max_y) {
            Err(AmmError::SlippageExceeded)
        } else if !self.spec_deposit_feasible(amount, x, y) {
            Err(AmmError::TransferError)
        } else {
            Ok(())
        }
    }

    /// Deposits the assets worth `amount` LP tokens and mints those tokens
    /// to the caller. On an empty pool the caller-specified bounds are
    /// deposited verbatim — and must not both be zero, so that the new
    /// shares are backed by something; otherwise the curve fixes the
    /// amounts and the bounds only guard against slippage. Any failure
    /// leaves every balance exactly as it was.
    pub fn deposit(&mut self, amount: u64, max_x: u64, max_y: u64) -> (r: Result<(), AmmError>)
        ensures
            r == old(self).spec_deposit_outcome(amount, max_x, max_y),
            r is Err ==> *final(self) == *old(self),
            r is Ok ==> ({
                let x = old(self).spec_deposit_x(amount, max_x);
                let y = old(self).spec_deposit_y(amount, max_y);
                &&& final(self).config == old(self).config
                &&& final(self).vault_x == old(self).vault_x + x
                &&& final(self).vault_y == old(self).vault_y + y
                &&& final(self).lp_supply == old(self).lp_supply + amount
                &&& final(self).user_ata_x == old(self).user_ata_x - x
                &&& final(self).user_ata_y == old(self).user_ata_y - y
                &&& final(self).user_ata_lp == old(self).user_ata_lp + amount
            }),
            r is Ok && old(self).spec_wf() ==> final(self).spec_wf(),
    {
        match assert_unlocked(&self.config) {
            Ok(()) => {},
            Err(e) => {
                return Err(e);
            },
        }
        if amount == 0 {
            return Err(AmmError::InvalidAmount);
        }
        let empty = self.lp_supply == 0 && self.vault_x == 0 && self.vault_y == 0;
        if empty && max_x == 0 && max_y == 0 {
            // A bootstrap deposit funds the vaults with the caller's own
            // amounts; letting both be zero would mint shares against an
            // empty pool and break its fully-empty-or-fully-funded
            // invariant.
            return Err(AmmError::InvalidAmount);
        }
        let (x, y): (u64, u64) = if empty {
            (max_x, max_y)
        } else {
            match curve::deposit_amounts_from_share(
                self.vault_x,
                self.vault_y,
                self.lp_supply,
                amount,
                LP_DECIMALS,
            ) {
                Ok(amounts) => (amounts.x, amounts.y),
                Err(_) => {
                    return Err(AmmError::CurveArithmeticError);
                },
            }
        };
        if !(x <= max_x && y <= max_y) {
            return Err(AmmError::SlippageExceeded);
        }
        // Check every balance move up front, so the operation is
        // all-or-nothing: no vault is credited unless the mint will succeed
        // too.
        if !(self.user_ata_x >= x && self.user_ata_y >= y && x <= u64::MAX - self.vault_x && y
            <= u64::MAX - self.vault_y && amount <= u64::MAX - self.lp_supply && amount <= u64::MAX
            - self.user_ata_lp) {
            return Err(AmmError::TransferError);
        }
        match self.deposit_tokens(true, x) {
            Ok(()) => {},
            Err(e) => {
                return Err(e);
            },
        }
        match self.deposit_tokens(false, y) {
            Ok(()) => {},
            Err(e) => {
                return Err(e);
            },
        }
        match self.mint_lp_tokens(amount) {
            Ok(()) => {},
            Err(e) => {
                return Err(e);
            },
        }
        Ok(())
    }

    /// Moves `amount` of one asset from the caller's balance into the
    /// matching vault. Fails, moving nothing, when the caller lacks the
    /// funds or the vault balance would overflow.
    pub fn deposit_tokens(&mut self, is_x: bool, amount: u64) -> (r: Result<(), AmmError>)
        ensures
            final(self).config == old(self).config,
            final(self).lp_supply == old(self).lp_supply,
            final(self).user_ata_lp == old(self).user_ata_lp,
            r is Ok <==> (if is_x {
                old(self).user_ata_x >= amount && old(self).vault_x + amount <= u64::MAX
            } else {
                old(self).user_ata_y >= amount && old(self).vault_y + amount <= u64::MAX
            }),
            r is Err ==> *final(self) == *old(self)
                && r == Err::<(), AmmError>(AmmError::TransferError),
            r is Ok && is_x ==> final(self).vault_x == old(self).vault_x + amount
                && final(self).user_ata_x == old(self).user_ata_x - amount
                && final(self).vault_y == old(self).vault_y
                && final(self).user_ata_y == old(self).user_ata_y,
            r is Ok && !is_x ==> final(self).vault_y == old(self).vault_y + amount
                && final(self).user_ata_y == old(self).user_ata_y - amount
                && final(self).vault_x == old(self).vault_x
                && final(self).user_ata_x == old(self).user_ata_x,
    {
        if is_x {
            if self.user_ata_x >= amount && amount <= u64::MAX - self.vault_x {
                self.user_ata_x = self.user_ata_x - amount;
                self.vault_x = self.vault_x + amount;
                Ok(())
            } else {
                Err(AmmError::TransferError)
            }
        } else {
            if self.user_ata_y >= amount && amount <= u64::MAX - self.vault_y {
                self.user_ata_y = self.user_ata_y - amount;
                self.vault_y = self.vault_y + amount;
                Ok(())
            } else {
                Err(AmmError::TransferError)
            }
        }
    }

    /// Mints `amount` LP tokens to the caller under the pool's own signing
    /// authority, growing the supply by the same amount. Fails, minting
    /// nothing, when either balance would overflow.
    pub fn mint_lp_tokens(&mut self, amount: u64) -> (r: Result<(), AmmError>)
        ensures
            final(self).config == old(self).config,
            final(self).vault_x == old(self).vault_x,
            final(self).vault_y == old(self).vault_y,
            final(self).user_ata_x == old(self).user_ata_x,
            final(self).user_ata_y == old(self).user_ata_y,
            r is Ok <==> (old(self).lp_supply + amount <= u64::MAX
                && old(self).user_ata_lp + amount <= u64::MAX),
            r is Err ==> *final(self) == *old(self)
                && r == Err::<(), AmmError>(AmmError::TransferError),
            r is Ok ==> final(self).lp_supply == old(self).lp_supply + amount
                && final(self).user_ata_lp == old(self).user_ata_lp + amount,
    {
        if amount <= u64::MAX - self.lp_supply && amount <= u64::MAX - self.user_ata_lp {
            self.lp_supply = self.lp_supply + amount;
            self.user_ata_lp = self.user_ata_lp + amount;
            Ok(())
        } else {
            Err(AmmError::TransferError)
        }
    }
}

/// Law: a deposit that completes never decreases the product of the two
/// vault balances — on a funded pool the rounded-up amounts only grow both
/// reserves, and on an empty pool the product rises from zero.
pub proof fn lemma_deposit_keeps_reserve_product(s: Deposit, amount: u64, max_x: u64, max_y: u64)
    requires
        s.spec_deposit_outcome(amount, max_x, max_y) is Ok,
    ensures
        (s.vault_x + s.spec_deposit_x(amount, max_x)) * (s.vault_y + s.spec_deposit_y(
            amount,
            max_y,
        )) >= s.vault_x * s.vault_y,
{
    if s.spec_pool_empty() {
        lemma_mul_nonnegative(max_x as int, max_y as int);
    } else {
        lemma_deposit_product_non_decreasing(
            s.vault_x as int,
            s.vault_y as int,
            s.lp_supply as int,
            amount as int,
        );
    }
}

} // verus!
