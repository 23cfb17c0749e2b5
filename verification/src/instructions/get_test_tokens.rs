use crate::constants::TEST_TOKEN_LIMIT;
use crate::error::SwapverseError;
use crate::pubkey::Pubkey;
use crate::spl_token_utils::{mint_tokens, Holder, TokenInstruction};
use crate::states::global_state::{is_mint_valid, GlobalState};
use vstd::prelude::*;

verus! {

/// A request for test tokens of one of the registry's assets.
#[derive(Clone, Copy, Debug, PartialEq, Eq)]
pub struct GetTestTokens {
    pub global_state: GlobalState,
    /// The asset asked for.
    pub token_mint: Pubkey,
}

impl GetTestTokens {
    /// Why a request for `amount` is rejected, if it is.
    pub open spec fn rejection(&self, amount: u64) -> Option<SwapverseError> {
        if !self.global_state.allows(self.token_mint) {
            Some(SwapverseError::InvalidTokenMint)
        } else if amount >= TEST_TOKEN_LIMIT {
            Some(SwapverseError::TokenAmountLimitExceeded)
        } else {
            None
        }
    }

    /// Asks for `amount` test tokens of the asset `token_mint`.
    ///
    /// The request is rejected if the asset is not in the registry
    /// (`InvalidTokenMint`) or if `amount` is not below the limit
    /// (`TokenAmountLimitExceeded`). Otherwise the ledger is asked to mint
    /// `amount` into the caller's account. No record changes.
    pub fn get_test_tokens(&mut self, amount: u64) -> (result: Result<
        Vec<TokenInstruction>,
        SwapverseError,
    >)
        ensures
            match result {
                Ok(instructions) => {
                    &&& old(self).rejection(amount) is None
                    &&& instructions@ == seq![
                        TokenInstruction::MintTo {
                            mint: old(self).token_mint,
                            to: Holder::User,
                            amount,
                        },
                    ]
                },
                Err(e) => old(self).rejection(amount) == Some(e),
            },
            *final(self) == *old(self),
    {
        if !is_mint_valid(&self.global_state, self.token_mint) {
            return Err(SwapverseError::InvalidTokenMint);
        }
        if !(amount < TEST_TOKEN_LIMIT) {
            return Err(SwapverseError::TokenAmountLimitExceeded);
        }
        let mut instructions: Vec<TokenInstruction> = Vec::new();
        instructions.push(mint_tokens(amount, self.token_mint, Holder::User));
        assert(instructions@ =~= seq![
            TokenInstruction::MintTo { mint: self.token_mint, to: Holder::User, amount },
        ]);
        Ok(instructions)
    }
}

} // verus!
