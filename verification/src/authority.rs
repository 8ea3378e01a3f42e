use crate::state::{Address, Config};
use vstd::bytes::{spec_u64_to_le_bytes, u64_to_le_bytes};
use vstd::prelude::*;

verus! {

/// The domain-separation tag under which every pool's authority is derived: the ASCII
/// bytes of the word `config`.
pub open spec fn authority_tag() -> Seq<u8> {
    seq![99u8, 111u8, 110u8, 102u8, 105u8, 103u8]
}

/// The authorization proof of the pool with the given seed and salt: the tag, the seed
/// in little-endian bytes, and the salt.
pub open spec fn signer_seeds_of(seed: u64, bump: u8) -> Seq<Seq<u8>> {
    seq![authority_tag(), spec_u64_to_le_bytes(seed), seq![bump]]
}

/// The credential by which the pool acts on the accounts in its custody. It names the
/// pool and carries what the pool's authorization proof is rebuilt from. Only this
/// crate can make one: holding it means acting on the pool's own code path.
pub struct PoolAuthority {
    pool: Address,
    seed: u64,
    bump: u8,
}

impl PoolAuthority {
    /// The pool that this credential acts for.
    pub closed spec fn pool(&self) -> Address {
        self.pool
    }

    /// The seed of that pool.
    pub closed spec fn seed(&self) -> u64 {
        self.seed
    }

    /// The salt stored when that pool's authority was derived.
    pub closed spec fn bump(&self) -> u8 {
        self.bump
    }

    /// The credential of the pool at `pool` whose record is `config`.
    pub(crate) fn for_pool(pool: Address, config: &Config) -> (credential: PoolAuthority)
        ensures
            credential.pool() == pool,
            credential.seed() == config.seed,
            credential.bump() == config.config_bump,
    {
        PoolAuthority { pool, seed: config.seed, bump: config.config_bump }
    }

    /// Whether this credential authorizes a change to an account whose declared
    /// authority is `authority`.
    pub fn authorizes(&self, authority: &Address) -> (yes: bool)
        ensures
            yes == (self.pool() == *authority),
    {
        self.pool == *authority
    }

    /// The authorization proof that stands for this credential outside the process.
    pub fn signer_seeds(&self) -> (seeds: Vec<Vec<u8>>)
        ensures
            seeds.deep_view() == signer_seeds_of(self.seed(), self.bump()),
    {
        signer_seeds(self.seed, self.bump)
    }
}

/// Rebuilds the authorization proof of a pool from its seed and its stored salt.
pub fn signer_seeds(seed: u64, bump: u8) -> (seeds: Vec<Vec<u8>>)
    ensures
        seeds.deep_view() == signer_seeds_of(seed, bump),
{
    let tag: Vec<u8> = vec![99u8, 111u8, 110u8, 102u8, 105u8, 103u8];
    let salt: Vec<u8> = vec![bump];
    let seeds: Vec<Vec<u8>> = vec![tag, u64_to_le_bytes(seed), salt];
    assert(seeds.deep_view() =~= signer_seeds_of(seed, bump)) by {
        assert forall|i: int| 0 <= i < 3 implies #[trigger] seeds.deep_view()[i] == signer_seeds_of(
            seed,
            bump,
        )[i] by {
            assert(seeds.deep_view()[i] =~= seeds@[i]@);
        }
    }
    seeds
}

} // verus!
