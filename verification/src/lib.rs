//! A constant-product automated market maker: a two-asset liquidity pool
//! whose participants deposit paired assets for LP (liquidity-provider)
//! tokens and later redeem LP tokens for a proportional share of the
//! reserves. The curve math rounds in the pool's favour (deposits round up,
//! withdrawals round down) so that completed operations never dilute the
//! value backing existing shares.

use vstd::prelude::*;

pub mod constants;
pub mod curve;
pub mod error;
pub mod instructions;
pub mod state;

use crate::error::AmmError;
use crate::instructions::initialize::Initialize;
use crate::state::Config;

verus! {

/// Program entrypoint for pool creation: delegates to the initializer
/// context, which builds the pool record with zero reserves, zero LP
/// supply, and `locked == false`.
pub fn initialize(
    ctx: &mut Initialize,
    seed: u64,
    fee: u16,
    authority: Option<u64>,
    config_bump: u8,
    lp_bump: u8,
) -> (r: Result<(), AmmError>)
    ensures
        r is Ok,
        final(ctx).config == (Config {
            seed,
            authority,
            mint_x: old(ctx).mint_x,
            mint_y: old(ctx).mint_y,
            fee,
            locked: false,
            config_bump,
            lp_bump,
        }),
        final(ctx).mint_x == old(ctx).mint_x,
        final(ctx).mint_y == old(ctx).mint_y,
        final(ctx).vault_x == 0,
        final(ctx).vault_y == 0,
        final(ctx).lp_supply == 0,
{
    ctx.initialize(seed, fee, authority, config_bump, lp_bump)
}

} // verus!
