use vstd::prelude::*;

verus! {

/// Number of fractional decimal places of the LP token.
pub const LP_DECIMALS: u8 = 6;

} // verus!
