use crate::error::SwapverseError;
use crate::pubkey::Pubkey;
use crate::states::global_state::GlobalState;
use vstd::prelude::*;

verus! {

/// The setting up of the registry with the five assets that may be pooled.
#[derive(Clone, Copy, Debug, PartialEq, Eq)]
pub struct InitializeGlobalState {
    /// The record that is to hold the registry.
    pub global_state: GlobalState,
    pub usdc_token_mint: Pubkey,
    pub usdt_token_mint: Pubkey,
    pub uxd_token_mint: Pubkey,
    pub pai_token_mint: Pubkey,
    pub usdh_token_mint: Pubkey,
}

impl InitializeGlobalState {
    /// The five assets in the order in which the registry lists them.
    pub open spec fn token_mints(&self) -> Seq<Pubkey> {
        seq![
            self.usdc_token_mint,
            self.usdt_token_mint,
            self.uxd_token_mint,
            self.pai_token_mint,
            self.usdh_token_mint,
        ]
    }

    /// Sets the registry up: it lists the five assets, records the
    /// derivation byte of the signing authority and counts no pools.
    pub fn initialize_global_state(&mut self, signing_authority_bump: &u8) -> (result: Result<
        (),
        SwapverseError,
    >)
        ensures
            result is Ok,
            final(self).global_state.token_mints@ == old(self).token_mints(),
            final(self).global_state.signing_authority_bump == *signing_authority_bump,
            final(self).global_state.no_of_swap_pools == 0,
            final(self).usdc_token_mint == old(self).usdc_token_mint,
            final(self).usdt_token_mint == old(self).usdt_token_mint,
            final(self).uxd_token_mint == old(self).uxd_token_mint,
            final(self).pai_token_mint == old(self).pai_token_mint,
            final(self).usdh_token_mint == old(self).usdh_token_mint,
    {
        let token_mints = [
            self.usdc_token_mint,
            self.usdt_token_mint,
            self.uxd_token_mint,
            self.pai_token_mint,
            self.usdh_token_mint,
        ];
        assert(token_mints@ =~= self.token_mints());
        self.global_state.initialize(token_mints, signing_authority_bump)
    }
}

} // verus!
