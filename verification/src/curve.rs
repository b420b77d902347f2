//! Fixed-point curve math: pure conversions between an LP-share amount and
//! the pair of asset amounts it is worth at the pool's current reserves.
//! Deposits round up and withdrawals round down, so rounding always favours
//! the pool.

use vstd::prelude::*;
use vstd::arithmetic::div_mod::*;
use vstd::arithmetic::mul::*;

verus! {

/// Integer division of `a` by `b`, rounded towards positive infinity.
pub open spec fn ceil_div(a: int, b: int) -> int
    recommends
        b > 0,
{
    (a + b - 1) / b
}

/// Why a share/amount conversion failed.
#[derive(Clone, Copy, Debug, PartialEq, Eq, Structural)]
pub enum CurveError {
    /// The LP supply is zero; the caller must use the bootstrap path instead.
    ZeroSupply,
    /// A computed amount does not fit in a 64-bit balance.
    Overflow,
}

/// A pair of asset amounts, one per reserve.
#[derive(Clone, Copy, Debug, PartialEq, Eq, Structural)]
pub struct XyAmounts {
    pub x: u64,
    pub y: u64,
}

/// Whether the amounts owed for minting `lp_amount` shares against reserves
/// `(rx, ry)` at supply `lp_supply` both fit in a 64-bit balance.
pub open spec fn deposit_amounts_in_range(rx: u64, ry: u64, lp_supply: u64, lp_amount: u64) -> bool {
    &&& ceil_div(rx * lp_amount, lp_supply as int) <= u64::MAX
    &&& ceil_div(ry * lp_amount, lp_supply as int) <= u64::MAX
}

/// Whether the amounts owed for burning `lp_amount` shares against reserves
/// `(rx, ry)` at supply `lp_supply` both fit in a 64-bit balance.
pub open spec fn withdraw_amounts_in_range(rx: u64, ry: u64, lp_supply: u64, lp_amount: u64) -> bool {
    &&& (rx * lp_amount) / (lp_supply as int) <= u64::MAX
    &&& (ry * lp_amount) / (lp_supply as int) <= u64::MAX
}

/// Bounds of the rounded-down withdrawal amount for one reserve `r`: burning
/// `a` of `l` shares never drains more than the reserve, drains it
/// completely exactly when every share is burned, and leaves something
/// whenever the reserve was funded and some shares remain.
pub proof fn lemma_withdraw_amount_bounds(r: int, l: int, a: int)
    requires
        0 <= r,
        0 < l,
        0 < a <= l,
    ensures
        0 <= (r * a) / l <= r,
        a == l ==> (r * a) / l == r,
        a < l && r > 0 ==> (r * a) / l < r,
{
    lemma_mul_nonnegative(r, a);
    lemma_div_pos_is_pos(r * a, l);
    lemma_mul_is_commutative(r, a);
    lemma_mul_is_commutative(r, l);
    lemma_mul_inequality(a, l, r);
    lemma_div_is_ordered(r * a, r * l, l);
    lemma_div_by_multiple(r, l);
    if a < l && r > 0 {
        lemma_mul_strict_inequality(a, l, r);
        lemma_multiply_divide_lt(r * a, l, r);
    }
}

/// Multiplying two componentwise-dominating pairs of non-negative values
/// keeps the order of the products.
proof fn lemma_product_of_bounds(a: int, b: int, c: int, d: int) by (nonlinear_arith)
    requires
        a >= b,
        b >= 0,
        c >= d,
        d >= 0,
    ensures
        a * c >= b * d,
{
}

/// Law: a deposit never decreases the product of the two reserves. Each
/// reserve only grows — the deposited amounts are rounded up, never
/// negative.
pub proof fn lemma_deposit_product_non_decreasing(rx: int, ry: int, l: int, a: int)
    requires
        0 <= rx,
        0 <= ry,
        0 < l,
        0 <= a,
    ensures
        (rx + ceil_div(rx * a, l)) * (ry + ceil_div(ry * a, l)) >= rx * ry,
{
    lemma_mul_nonnegative(rx, a);
    lemma_mul_nonnegative(ry, a);
    lemma_div_pos_is_pos(rx * a + l - 1, l);
    lemma_div_pos_is_pos(ry * a + l - 1, l);
    let dx = ceil_div(rx * a, l);
    let dy = ceil_div(ry * a, l);
    lemma_product_of_bounds(rx + dx, rx, ry + dy, ry);
}

/// Law: a withdrawal never decreases the reserve product per squared LP
/// share. Burning `a` of `l` shares pays out at most the proportional slice
/// of each reserve, so the value backing every remaining share is intact:
/// `X' * Y' / (l-a)^2 >= X * Y / l^2`, stated here multiplied out.
pub proof fn lemma_withdraw_preserves_share_value(rx: int, ry: int, l: int, a: int)
    requires
        0 <= rx,
        0 <= ry,
        0 < a <= l,
    ensures
        (rx - (rx * a) / l) * (ry - (ry * a) / l) * (l * l) >= (rx * ry) * ((l - a) * (l - a)),
{
    let fx = (rx * a) / l;
    let fy = (ry * a) / l;
    lemma_withdraw_amount_bounds(rx, l, a);
    lemma_withdraw_amount_bounds(ry, l, a);
    lemma_fundamental_div_mod(rx * a, l);
    lemma_fundamental_div_mod(ry * a, l);
    lemma_mod_bound(rx * a, l);
    lemma_mod_bound(ry * a, l);
    assert(l * fx <= rx * a);
    assert(l * fy <= ry * a);
    assert((rx - fx) * l >= rx * (l - a)) by (nonlinear_arith)
        requires
            l * fx <= rx * a,
    ;
    assert((ry - fy) * l >= ry * (l - a)) by (nonlinear_arith)
        requires
            l * fy <= ry * a,
    ;
    lemma_mul_nonnegative(rx, l - a);
    lemma_mul_nonnegative(ry, l - a);
    lemma_product_of_bounds((rx - fx) * l, rx * (l - a), (ry - fy) * l, ry * (l - a));
    assert(((rx - fx) * l) * ((ry - fy) * l) == (rx - fx) * (ry - fy) * (l * l))
        by (nonlinear_arith);
    assert((rx * (l - a)) * (ry * (l - a)) == (rx * ry) * ((l - a) * (l - a)))
        by (nonlinear_arith);
}

/// Law: depositing `a` shares' worth of one reserve and then burning the
/// same `a` shares pays back at most what was deposited — the rounding
/// asymmetry (deposits up, withdrawals down) never favours the caller.
pub proof fn lemma_round_trip_bound(r: int, l: int, a: int)
    requires
        0 <= r,
        0 < l,
        0 < a,
    ensures
        ((r + ceil_div(r * a, l)) * a) / (l + a) <= ceil_div(r * a, l),
{
    let d = ceil_div(r * a, l);
    lemma_mul_nonnegative(r, a);
    lemma_div_pos_is_pos(r * a + l - 1, l);
    lemma_fundamental_div_mod(r * a + l - 1, l);
    lemma_mod_bound(r * a + l - 1, l);
    assert(l * d >= r * a);
    assert((r + d) * a <= d * (l + a)) by (nonlinear_arith)
        requires
            l * d >= r * a,
    ;
    lemma_div_is_ordered((r + d) * a, d * (l + a), l + a);
    lemma_div_by_multiple(d, l + a);
}

/// The exact X and Y amounts that must be deposited to mint `lp_amount` LP
/// tokens on a non-empty pool while preserving the reserve ratio: each
/// component is `reserve * lp_amount / lp_supply` rounded up, so the pool is
/// never under-collateralized relative to the newly minted shares. Amounts
/// are in the assets' base units; `decimals` records the LP token's
/// fixed-point precision and does not enter the ratio.
pub fn deposit_amounts_from_share(
    rx: u64,
    ry: u64,
    lp_supply: u64,
    lp_amount: u64,
    decimals: u8,
) -> (r: Result<XyAmounts, CurveError>)
    ensures
        match r {
            Ok(a) => {
                &&& lp_supply > 0
                &&& deposit_amounts_in_range(rx, ry, lp_supply, lp_amount)
                &&& a.x == ceil_div(rx * lp_amount, lp_supply as int)
                &&& a.y == ceil_div(ry * lp_amount, lp_supply as int)
            },
            Err(e) => {
                if lp_supply == 0 {
                    e == CurveError::ZeroSupply
                } else {
                    e == CurveError::Overflow && !deposit_amounts_in_range(
                        rx,
                        ry,
                        lp_supply,
                        lp_amount,
                    )
                }
            },
        },
{
    if lp_supply == 0 {
        return Err(CurveError::ZeroSupply);
    }
    proof {
        lemma_mul_upper_bound(rx as int, u64::MAX as int, lp_amount as int, u64::MAX as int);
        lemma_mul_upper_bound(ry as int, u64::MAX as int, lp_amount as int, u64::MAX as int);
    }
    let l: u128 = lp_supply as u128;
    let nx: u128 = (rx as u128) * (lp_amount as u128);
    let ny: u128 = (ry as u128) * (lp_amount as u128);
    let cx: u128 = (nx + (l - 1)) / l;
    let cy: u128 = (ny + (l - 1)) / l;
    if cx > u64::MAX as u128 || cy > u64::MAX as u128 {
        return Err(CurveError::Overflow);
    }
    Ok(XyAmounts { x: cx as u64, y: cy as u64 })
}

/// The X and Y amounts owed for burning `lp_amount` LP tokens on a non-empty
/// pool: each component is `reserve * lp_amount / lp_supply` rounded down,
/// so the pool never pays out more than the burned share is worth. Amounts
/// are in the assets' base units; `decimals` records the LP token's
/// fixed-point precision and does not enter the ratio.
pub fn withdraw_amounts_from_share(
    rx: u64,
    ry: u64,
    lp_supply: u64,
    lp_amount: u64,
    decimals: u8,
) -> (r: Result<XyAmounts, CurveError>)
    ensures
        match r {
            Ok(a) => {
                &&& lp_supply > 0
                &&& withdraw_amounts_in_range(rx, ry, lp_supply, lp_amount)
                &&& a.x == (rx * lp_amount) / (lp_supply as int)
                &&& a.y == (ry * lp_amount) / (lp_supply as int)
            },
            Err(e) => {
                if lp_supply == 0 {
                    e == CurveError::ZeroSupply
                } else {
                    e == CurveError::Overflow && !withdraw_amounts_in_range(
                        rx,
                        ry,
                        lp_supply,
                        lp_amount,
                    )
                }
            },
        },
{
    if lp_supply == 0 {
        return Err(CurveError::ZeroSupply);
    }
    proof {
        lemma_mul_upper_bound(rx as int, u64::MAX as int, lp_amount as int, u64::MAX as int);
        lemma_mul_upper_bound(ry as int, u64::MAX as int, lp_amount as int, u64::MAX as int);
    }
    let l: u128 = lp_supply as u128;
    let wx: u128 = ((rx as u128) * (lp_amount as u128)) / l;
    let wy: u128 = ((ry as u128) * (lp_amount as u128)) / l;
    if wx > u64::MAX as u128 || wy > u64::MAX as u128 {
        return Err(CurveError::Overflow);
    }
    Ok(XyAmounts { x: wx as u64, y: wy as u64 })
}

} // verus!
