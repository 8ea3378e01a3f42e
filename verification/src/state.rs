use vstd::prelude::*;

verus! {

/// Decimal places of every pool's LP token.
pub const LP_DECIMALS: u8 = 6;

/// The identity of an account, an asset type or a wallet: thirty-two opaque bytes.
#[derive(Clone, Copy, Debug, Eq)]
pub struct Address {
    pub bytes: [u8; 32],
}

impl PartialEq for Address {
    /// Two addresses are the same exactly when all their bytes agree.
    fn eq(&self, other: &Address) -> (r: bool) {
        let mut i: usize = 0;
        while i < 32
            invariant
                i <= 32,
                forall|j: int| 0 <= j < i ==> self.bytes@[j] == other.bytes@[j],
            decreases 32 - i,
        {
            if self.bytes[i] != other.bytes[i] {
                return false;
            }
            i = i + 1;
        }
        assert(self.bytes =~= other.bytes);
        true
    }
}

impl vstd::std_specs::cmp::PartialEqSpecImpl for Address {
    open spec fn obeys_eq_spec() -> bool {
        true
    }

    open spec fn eq_spec(&self, other: &Address) -> bool {
        *self == *other
    }
}

/// The record kept for one pool. After creation only `locked` ever changes.
#[derive(Clone, Copy, Debug, PartialEq, Eq)]
pub struct Config {
    /// Tells pools of one asset pair apart; the pool's authority is derived from it.
    pub seed: u64,
    /// Who may lock and unlock the pool, if anyone.
    pub authority: Option<Address>,
    /// The asset type held in reserve X.
    pub mint_x: Address,
    /// The asset type held in reserve Y.
    pub mint_y: Address,
    /// Swap fee in basis points.
    pub fee: u16,
    /// Emergency pause: while set, the pool settles nothing.
    pub locked: bool,
    /// Salt found when the pool's authority was derived.
    pub config_bump: u8,
    /// Salt found when the LP mint's address was derived.
    pub lp_bump: u8,
}

/// A balance of one asset, and the identity that may debit it.
#[derive(Clone, Copy, Debug, PartialEq, Eq)]
pub struct TokenAccount {
    /// The identity whose authorization a debit needs.
    pub owner: Address,
    /// Units held.
    pub amount: u64,
}

impl TokenAccount {
    /// An account of `owner` that holds nothing.
    pub fn empty(owner: Address) -> (account: TokenAccount)
        ensures
            account == (TokenAccount { owner, amount: 0 }),
    {
        TokenAccount { owner, amount: 0 }
    }
}

/// The supply counter of a fungible token, and the identity that may mint and burn it.
#[derive(Clone, Copy, Debug, PartialEq, Eq)]
pub struct Mint {
    /// The identity whose authorization a change of supply needs; with none, the supply
    /// is closed to everyone.
    pub authority: Option<Address>,
    /// Units in circulation.
    pub supply: u64,
    /// Decimal places of one token.
    pub decimals: u8,
}

impl Mint {
    /// A mint under `authority` with nothing in circulation.
    pub fn empty(authority: Address, decimals: u8) -> (mint: Mint)
        ensures
            mint == (Mint { authority: Some(authority), supply: 0, decimals }),
    {
        Mint { authority: Some(authority), supply: 0, decimals }
    }
}

} // verus!
