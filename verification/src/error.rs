use vstd::prelude::*;

verus! {

/// The error kinds a pool operation can surface. Every failed operation
/// leaves the pool state exactly as it was before the call.
#[derive(Clone, Copy, Debug, PartialEq, Eq, Structural)]
pub enum AmmError {
    /// The pool's `locked` flag is set; deposits and withdrawals are rejected.
    PoolLocked,
    /// The requested LP amount is zero.
    InvalidAmount,
    /// A withdrawal was attempted by a caller holding no LP tokens.
    NoLiquidityInPool,
    /// The computed asset amounts violate the caller's slippage bounds.
    SlippageExceeded,
    /// The curve math overflowed or was asked to divide by a zero LP supply.
    CurveArithmeticError,
    /// The asset pair handed to an operation does not match the pool's pair.
    AssetMismatch,
    /// A balance move could not be performed: the source lacks funds or the
    /// destination balance would overflow.
    TransferError,
}

} // verus!
