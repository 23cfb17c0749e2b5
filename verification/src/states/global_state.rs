use crate::error::SwapverseError;
use crate::pubkey::Pubkey;
use vstd::prelude::*;

verus! {

/// The registry: which assets may be pooled, and how many pools exist.
///
/// There is one registry. It is set up once; after that only creating a pool
/// changes it, and only its counter.
#[derive(Clone, Copy, Debug, PartialEq, Eq)]
pub struct GlobalState {
    /// The assets that pools may hold.
    pub token_mints: [Pubkey; 5],
    /// Derivation byte of the engine's signing authority.
    pub signing_authority_bump: u8,
    /// Number of pools created so far, and the number of the next pool.
    pub no_of_swap_pools: u64,
}

impl Default for GlobalState {
    /// The blank registry: all-zero keys, no pools.
    fn default() -> (state: GlobalState)
        ensures
            forall|i: int| 0 <= i < 5 ==> state.token_mints[i] == Pubkey::zero(),
            state.signing_authority_bump == 0,
            state.no_of_swap_pools == 0,
    {
        GlobalState {
            token_mints: [Pubkey::default();5],
            signing_authority_bump: 0,
            no_of_swap_pools: 0,
        }
    }
}

impl GlobalState {
    /// Whether `mint` is one of the registry's assets.
    pub open spec fn allows(&self, mint: Pubkey) -> bool {
        exists|i: int| 0 <= i < 5 && self.token_mints[i] == mint
    }

    /// Sets the registry up with its five assets and no pools.
    pub fn initialize(&mut self, token_mints: [Pubkey; 5], signing_authority_bump: &u8) -> (result:
        Result<(), SwapverseError>)
        ensures
            result is Ok,
            final(self).token_mints == token_mints,
            final(self).signing_authority_bump == *signing_authority_bump,
            final(self).no_of_swap_pools == 0,
    {
        self.token_mints = token_mints;
        self.signing_authority_bump = *signing_authority_bump;
        self.no_of_swap_pools = 0;

        Ok(())
    }

    /// Hands out the number of the next pool and counts it.
    ///
    /// Numbers are handed out in order, none twice and none skipped. The
    /// counter must not be exhausted.
    pub fn next_pool_number(&mut self) -> (pool_number: u64)
        requires
            old(self).no_of_swap_pools < u64::MAX,
        ensures
            pool_number == old(self).no_of_swap_pools,
            final(self).no_of_swap_pools == old(self).no_of_swap_pools + 1,
            final(self).token_mints == old(self).token_mints,
            final(self).signing_authority_bump == old(self).signing_authority_bump,
    {
        let pool_number = self.no_of_swap_pools;
        self.no_of_swap_pools = pool_number + 1;
        pool_number
    }
}

/// Whether `mint_address` is one of the registry's assets: it must match one
/// of the five slots exactly.
pub fn is_mint_valid(global_state: &GlobalState, mint_address: Pubkey) -> (valid: bool)
    ensures
        valid == global_state.allows(mint_address),
{
    let mut i: usize = 0;
    while i < 5
        invariant
            i <= 5,
            forall|j: int| 0 <= j < i ==> global_state.token_mints[j] != mint_address,
        decreases 5 - i,
    {
        if global_state.token_mints[i] == mint_address {
            return true;
        }
        i += 1;
    }
    false
}

} // verus!
