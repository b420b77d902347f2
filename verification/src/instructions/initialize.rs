//! One-shot pool creation: builds the pool record and empty vaults.

use vstd::prelude::*;
use crate::error::AmmError;
use crate::state::Config;

verus! {

/// The accounts touched by pool creation: the asset pair's identities, the
/// pool record to be written, and the freshly allocated custodial vault and
/// LP-supply balances.
#[derive(Clone, Copy, Debug, PartialEq, Eq)]
pub struct Initialize {
    /// Identity of the pool's X asset; immutable after creation.
    pub mint_x: u64,
    /// Identity of the pool's Y asset; immutable after creation.
    pub mint_y: u64,
    /// The pool record being created.
    pub config: Config,
    /// Balance of the pool's X-asset vault.
    pub vault_x: u64,
    /// Balance of the pool's Y-asset vault.
    pub vault_y: u64,
    /// Total supply of the pool's LP token.
    pub lp_supply: u64,
}

impl Initialize {
    /// Creates the pool record with `locked == false`, zero reserves and
    /// zero LP supply, bound to this context's asset pair.
    pub fn initialize(
        &mut self,
        seed: u64,
        fee: u16,
        authority: Option<u64>,
        config_bump: u8,
        lp_bump: u8,
    ) -> (r: Result<(), AmmError>)
        ensures
            r is Ok,
            final(self).config == (Config {
                seed,
                authority,
                mint_x: old(self).mint_x,
                mint_y: old(self).mint_y,
                fee,
                locked: false,
                config_bump,
                lp_bump,
            }),
            final(self).mint_x == old(self).mint_x,
            final(self).mint_y == old(self).mint_y,
            final(self).vault_x == 0,
            final(self).vault_y == 0,
            final(self).lp_supply == 0,
    {
        self.config = Config {
            seed,
            authority,
            mint_x: self.mint_x,
            mint_y: self.mint_y,
            fee,
            locked: false,
            config_bump,
            lp_bump,
        };
        self.vault_x = 0;
        self.vault_y = 0;
        self.lp_supply = 0;
        Ok(())
    }
}

} // verus!
