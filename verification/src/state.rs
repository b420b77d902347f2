//! The pool ledger: one pool's configuration record and the shared
//! precondition gates both orchestrators call before touching balances.

use vstd::prelude::*;
use crate::error::AmmError;

verus! {

/// The persistent record of one pool. Identity fields (`seed`, `mint_x`,
/// `mint_y`, the bumps) are fixed at creation; `locked` may later be toggled
/// by `authority`. Asset and principal identities are opaque 64-bit ids.
#[derive(Clone, Copy, Debug, PartialEq, Eq)]
pub struct Config {
    /// Discriminator allowing multiple pools over the same asset pair.
    pub seed: u64,
    /// Principal permitted to change pool parameters; `None` means no such
    /// principal exists.
    pub authority: Option<u64>,
    /// Identity of the pool's X asset.
    pub mint_x: u64,
    /// Identity of the pool's Y asset.
    pub mint_y: u64,
    /// Fee rate in basis points, applied to swaps; part of pool identity.
    pub fee: u16,
    /// When true, all deposit and withdraw operations are rejected.
    pub locked: bool,
    /// Derivation bump of the pool's own signing authority.
    pub config_bump: u8,
    /// Derivation bump of the LP token's mint authority.
    pub lp_bump: u8,
}

/// Shared gate: rejects any operation on a locked pool.
pub fn assert_unlocked(config: &Config) -> (r: Result<(), AmmError>)
    ensures
        r is Ok <==> !config.locked,
        r is Err ==> r == Err::<(), AmmError>(AmmError::PoolLocked),
{
    if config.locked {
        Err(AmmError::PoolLocked)
    } else {
        Ok(())
    }
}

/// Shared gate: rejects an operation whose asset pair is not the pool's own.
pub fn assert_asset_pair_matches(config: &Config, mint_x: u64, mint_y: u64) -> (r: Result<
    (),
    AmmError,
>)
    ensures
        r is Ok <==> (config.mint_x == mint_x && config.mint_y == mint_y),
        r is Err ==> r == Err::<(), AmmError>(AmmError::AssetMismatch),
{
    if config.mint_x == mint_x && config.mint_y == mint_y {
        Ok(())
    } else {
        Err(AmmError::AssetMismatch)
    }
}

} // verus!
