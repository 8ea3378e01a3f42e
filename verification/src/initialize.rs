use crate::errors::AmmError;
use crate::state::{Address, Config, Mint, TokenAccount, LP_DECIMALS};
use vstd::prelude::*;

verus! {

/// The salts found when the addresses of a new pool were derived.
#[derive(Clone, Copy, Debug, PartialEq, Eq)]
pub struct InitializeBumps {
    /// The salt of the pool's own authority.
    pub config: u8,
    /// The salt of the LP mint's address.
    pub mint_lp: u8,
}

/// Everything that the creation of a pool reads and writes: the two asset types, and
/// the four records that come into being together.
#[derive(Clone, Copy, Debug, PartialEq, Eq)]
pub struct Initialize {
    /// Who creates the pool.
    pub signer: Address,
    /// The asset type of reserve X.
    pub mint_x: Address,
    /// The asset type of reserve Y.
    pub mint_y: Address,
    /// The new pool's own identity, under which it will hold its vaults and its LP mint.
    pub config_key: Address,
    /// The pool's record.
    pub config: Config,
    /// Reserve X.
    pub vault_x: TokenAccount,
    /// Reserve Y.
    pub vault_y: TokenAccount,
    /// The LP token's supply.
    pub mint_lp: Mint,
}

impl Initialize {
    /// The four records of a pool that has just been created for the asset pair and
    /// under the identity of `self`: an unlocked record, two empty vaults and an LP mint
    /// with nothing in circulation, all three under the pool's own authority.
    pub open spec fn initialized(
        self,
        seed: u64,
        fee: u16,
        authority: Option<Address>,
        bumps: InitializeBumps,
    ) -> Initialize {
        Initialize {
            config: Config {
                seed,
                authority,
                mint_x: self.mint_x,
                mint_y: self.mint_y,
                fee,
                locked: false,
                config_bump: bumps.config,
                lp_bump: bumps.mint_lp,
            },
            vault_x: TokenAccount { owner: self.config_key, amount: 0 },
            vault_y: TokenAccount { owner: self.config_key, amount: 0 },
            mint_lp: Mint { authority: Some(self.config_key), supply: 0, decimals: LP_DECIMALS },
            ..self
        }
    }

    /// Creates the pool: writes its record, unlocked, and opens its two vaults and its
    /// LP mint, empty. The two reserve assets must be two.
    pub fn initialize(
        &mut self,
        seed: u64,
        fee: u16,
        authority: Option<Address>,
        bumps: InitializeBumps,
    ) -> (result: Result<(), AmmError>)
        requires
            old(self).mint_x != old(self).mint_y,
        ensures
            result is Ok,
            *final(self) == old(self).initialized(seed, fee, authority, bumps),
    {
        self.config = Config {
            seed,
            authority,
            mint_x: self.mint_x,
            mint_y: self.mint_y,
            fee,
            locked: false,
            config_bump: bumps.config,
            lp_bump: bumps.mint_lp,
        };
        self.vault_x = TokenAccount::empty(self.config_key);
        self.vault_y = TokenAccount::empty(self.config_key);
        self.mint_lp = Mint::empty(self.config_key, LP_DECIMALS);
        Ok(())
    }
}

} // verus!
