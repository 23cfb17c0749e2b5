use crate::error::SwapverseError;
use crate::pubkey::Pubkey;
use crate::states::global_state::{is_mint_valid, GlobalState};
use crate::states::swap_pool::SwapPool;
use vstd::prelude::*;

verus! {

/// The creation of a pool for two assets of the registry.
#[derive(Clone, Copy, Debug, PartialEq, Eq)]
pub struct CreateSwapPool {
    pub global_state: GlobalState,
    /// The record that is to hold the new pool.
    pub swap_pool: SwapPool,
    pub token_a_mint: Pubkey,
    pub token_b_mint: Pubkey,
    /// The share token for deposits of asset A.
    pub pool_share_token_a_mint: Pubkey,
    /// The share token for deposits of asset B.
    pub pool_share_token_b_mint: Pubkey,
}

impl CreateSwapPool {
    /// Why the creation is rejected, if it is.
    pub open spec fn rejection(&self, initial_amount_a: u64, initial_amount_b: u64) -> Option<
        SwapverseError,
    > {
        if !self.global_state.allows(self.token_a_mint) {
            Some(SwapverseError::InvalidTokenMint)
        } else if !self.global_state.allows(self.token_b_mint) {
            Some(SwapverseError::InvalidTokenMint)
        } else if self.token_b_mint == self.token_a_mint {
            Some(SwapverseError::SameTokenMints)
        } else if initial_amount_a != initial_amount_b {
            Some(SwapverseError::InitialAmountsNotSame)
        } else {
            None
        }
    }

    /// Whether the registry can count the pool: a creation that is not
    /// rejected needs a counter that is not exhausted.
    pub open spec fn in_range(&self, initial_amount_a: u64, initial_amount_b: u64) -> bool {
        self.rejection(initial_amount_a, initial_amount_b) is None
            ==> self.global_state.no_of_swap_pools < u64::MAX
    }

    /// Whether `create_swap_pool` may be called with these amounts.
    pub fn check_in_range(&self, initial_amount_a: u64, initial_amount_b: u64) -> (ok: bool)
        ensures
            ok == self.in_range(initial_amount_a, initial_amount_b),
    {
        !is_mint_valid(&self.global_state, self.token_a_mint) || !is_mint_valid(
            &self.global_state,
            self.token_b_mint,
        ) || self.token_b_mint == self.token_a_mint || initial_amount_a != initial_amount_b
            || self.global_state.no_of_swap_pools < u64::MAX
    }

    /// Creates a pool at time `now` that is to be funded with
    /// `initial_amount_a` and `initial_amount_b` of the two assets.
    ///
    /// The creation is rejected if one of the assets is not in the registry
    /// (`InvalidTokenMint`), if the two are the same (`SameTokenMints`), or
    /// if the two amounts differ (`InitialAmountsNotSame`).
    ///
    /// Otherwise the pool takes the registry's count as its number, the
    /// count goes up by one, and the pool is open for investment. The
    /// registry's counter must not be exhausted.
    pub fn create_swap_pool(
        &mut self,
        initial_amount_a: u64,
        initial_amount_b: u64,
        swap_fee_percentage: u8,
        swapverse_fee_percentage: u8,
        min_investment_amount: u64,
        max_days_to_fill: u8,
        swap_life_in_days: u64,
        now: i64,
    ) -> (result: Result<(), SwapverseError>)
        requires
            old(self).in_range(initial_amount_a, initial_amount_b),
        ensures
            match result {
                Ok(_) => {
                    &&& old(self).rejection(initial_amount_a, initial_amount_b) is None
                    &&& final(self).swap_pool == SwapPool::created(
                        old(self).global_state.no_of_swap_pools,
                        old(self).token_a_mint,
                        old(self).token_b_mint,
                        old(self).pool_share_token_a_mint,
                        old(self).pool_share_token_b_mint,
                        initial_amount_a,
                        initial_amount_b,
                        swap_fee_percentage,
                        swapverse_fee_percentage,
                        min_investment_amount,
                        max_days_to_fill,
                        swap_life_in_days,
                        now,
                    )
                    &&& final(self).swap_pool.wf()
                    &&& final(self).global_state.no_of_swap_pools
                        == old(self).global_state.no_of_swap_pools + 1
                },
                Err(e) => {
                    &&& old(self).rejection(initial_amount_a, initial_amount_b) == Some(e)
                    &&& final(self).swap_pool == old(self).swap_pool
                    &&& final(self).global_state.no_of_swap_pools
                        == old(self).global_state.no_of_swap_pools
                },
            },
            final(self).global_state.token_mints == old(self).global_state.token_mints,
            final(self).global_state.signing_authority_bump
                == old(self).global_state.signing_authority_bump,
            final(self).token_a_mint == old(self).token_a_mint,
            final(self).token_b_mint == old(self).token_b_mint,
            final(self).pool_share_token_a_mint == old(self).pool_share_token_a_mint,
            final(self).pool_share_token_b_mint == old(self).pool_share_token_b_mint,
    {
        if !is_mint_valid(&self.global_state, self.token_a_mint) {
            return Err(SwapverseError::InvalidTokenMint);
        }
        if !is_mint_valid(&self.global_state, self.token_b_mint) {
            return Err(SwapverseError::InvalidTokenMint);
        }
        if self.token_b_mint == self.token_a_mint {
            return Err(SwapverseError::SameTokenMints);
        }
        if initial_amount_a != initial_amount_b {
            return Err(SwapverseError::InitialAmountsNotSame);
        }
        let pool_number = self.global_state.next_pool_number();

        self.swap_pool.initialize(
            pool_number,
            self.token_a_mint,
            self.token_b_mint,
            self.pool_share_token_a_mint,
            self.pool_share_token_b_mint,
            initial_amount_a,
            initial_amount_b,
            swap_fee_percentage,
            swapverse_fee_percentage,
            min_investment_amount,
            max_days_to_fill,
            swap_life_in_days,
            now,
        )
    }
}

} // verus!
