use crate::error::SwapverseError;
use crate::pubkey::Pubkey;
use crate::spl_token_utils::{
    mint_frozen_instructions,
    mint_frozen_tokens,
    transfer_tokens,
    Holder,
    TokenAccount,
    TokenInstruction,
};
use crate::states::swap_pool::{lemma_event_keeps_pool_well_formed, PoolEvent, SwapPool};
use vstd::prelude::*;

verus! {

/// An investment: an investor funds one leg of a pool and is given shares.
///
/// No fee is taken. The shares are minted one for each unit deposited and
/// are kept frozen in the investor's account.
#[derive(Clone, Copy, Debug, PartialEq, Eq)]
pub struct InvestSwapPool {
    pub swap_pool: SwapPool,
    /// The asset that the investor offers.
    pub token_mint: Pubkey,
    /// The investor's account of that asset.
    pub investor_token_account: TokenAccount,
    /// The investor's account of the share token of that leg.
    pub investor_pool_share_token_account: TokenAccount,
}

impl InvestSwapPool {
    /// Whether the asset offered is one of the pool's two.
    pub open spec fn mint_is_of_pool(&self) -> bool {
        self.token_mint == self.swap_pool.token_a_mint || self.token_mint
            == self.swap_pool.token_b_mint
    }

    /// Whether the asset offered is the pool's asset A.
    pub open spec fn is_token_a(&self) -> bool {
        self.token_mint == self.swap_pool.token_a_mint
    }

    /// What the leg offered to still lacks of its target.
    pub open spec fn amount_remaining(&self) -> int {
        self.swap_pool.initial_amount(self.is_token_a())
            - self.swap_pool.amount_to_be_distributed(self.is_token_a())
    }

    /// What is accepted of an offer of `amount`: all of it, or as much as
    /// the leg still lacks.
    pub open spec fn deposit_amount(&self, amount: u64) -> int {
        if amount <= self.amount_remaining() {
            amount as int
        } else {
            self.amount_remaining()
        }
    }

    /// Why an offer of `amount` is rejected, if it is.
    pub open spec fn rejection(&self, amount: u64) -> Option<SwapverseError> {
        if !self.swap_pool.open_for_investment {
            Some(SwapverseError::SwapPoolNotOpenForInvestment)
        } else if amount < self.swap_pool.min_investment_amount {
            Some(SwapverseError::InsufficientAmount)
        } else if !self.mint_is_of_pool() {
            Some(SwapverseError::InvalidPoolTokenMint)
        } else if self.swap_pool.fully_funded() {
            Some(SwapverseError::SwapPoolNotOpenForInvestment)
        } else if self.deposit_amount(amount) <= 0 {
            Some(SwapverseError::DepositAmountIsZero)
        } else if self.investor_token_account.amount < self.deposit_amount(amount) {
            Some(SwapverseError::NotEnoughTokens)
        } else {
            None
        }
    }

    /// What an accepted offer does to the pool at time `now`.
    pub open spec fn event(&self, amount: u64, now: i64) -> PoolEvent {
        PoolEvent::Deposit {
            is_token_a: self.is_token_a(),
            amount: self.deposit_amount(amount) as u64,
            now,
        }
    }

    /// What an accepted offer asks of the ledger: move the deposit from the
    /// investor to the pool's reserve, and mint as many frozen shares.
    pub open spec fn instructions(&self, amount: u64) -> Seq<TokenInstruction> {
        seq![
            TokenInstruction::Transfer {
                mint: self.token_mint,
                from: Holder::User,
                to: Holder::PoolReserve,
                amount: self.deposit_amount(amount) as u64,
                signed: false,
            },
        ] + mint_frozen_instructions(
            self.deposit_amount(amount) as u64,
            self.swap_pool.pool_share_token_mint(self.is_token_a()),
            Holder::User,
            self.investor_pool_share_token_account.is_frozen,
        )
    }

    /// Offers `amount` of the asset `token_mint` to the pool at time `now`.
    ///
    /// The offer is rejected if the pool is not open for investment or is
    /// funded already (`SwapPoolNotOpenForInvestment`), if `amount` is below
    /// the pool's minimum (`InsufficientAmount`), if the asset is neither of
    /// the pool's two (`InvalidPoolTokenMint`), if nothing of it can be
    /// accepted (`DepositAmountIsZero`), or if the investor holds less than
    /// what would be accepted (`NotEnoughTokens`).
    ///
    /// Otherwise the deposit, which is `amount` or what the leg still lacks
    /// if that is less, is added to the leg's principal, and the pool is
    /// activated if that deposit completes its funding.
    pub fn invest_swap_pool(&mut self, amount: u64, now: i64) -> (result: Result<
        Vec<TokenInstruction>,
        SwapverseError,
    >)
        requires
            old(self).swap_pool.wf(),
        ensures
            match result {
                Ok(instructions) => {
                    &&& old(self).rejection(amount) is None
                    &&& instructions@ == old(self).instructions(amount)
                    &&& old(self).swap_pool.accepts(old(self).event(amount, now))
                    &&& final(self).swap_pool == old(self).swap_pool.after(
                        old(self).event(amount, now),
                    )
                },
                Err(e) => {
                    &&& old(self).rejection(amount) == Some(e)
                    &&& final(self).swap_pool == old(self).swap_pool
                },
            },
            final(self).swap_pool.wf(),
            final(self).token_mint == old(self).token_mint,
            final(self).investor_token_account == old(self).investor_token_account,
            final(self).investor_pool_share_token_account
                == old(self).investor_pool_share_token_account,
    {
        if !self.swap_pool.open_for_investment {
            return Err(SwapverseError::SwapPoolNotOpenForInvestment);
        }
        if amount < self.swap_pool.min_investment_amount {
            return Err(SwapverseError::InsufficientAmount);
        }
        let is_token_a = self.token_mint == self.swap_pool.token_a_mint;
        if !is_token_a && self.token_mint != self.swap_pool.token_b_mint {
            return Err(SwapverseError::InvalidPoolTokenMint);
        }
        let amount_remaining = if is_token_a {
            self.swap_pool.initial_amount_a - self.swap_pool.token_a_amount_to_be_distributed
        } else {
            self.swap_pool.initial_amount_b - self.swap_pool.token_b_amount_to_be_distributed
        };

        // a pool that is funded already takes no deposit
        let mut checked = self.swap_pool;
        checked.activate_if_funded(now);
        if !checked.open_for_investment {
            return Err(SwapverseError::SwapPoolNotOpenForInvestment);
        }
        let deposit_amount = if amount <= amount_remaining {
            amount
        } else {
            amount_remaining
        };
        if deposit_amount == 0 {
            return Err(SwapverseError::DepositAmountIsZero);
        }
        if self.investor_token_account.amount < deposit_amount {
            return Err(SwapverseError::NotEnoughTokens);
        }
        proof {
            lemma_event_keeps_pool_well_formed(self.swap_pool, self.event(amount, now));
        }

        if is_token_a {
            self.swap_pool.token_a_amount_to_be_distributed =
                self.swap_pool.token_a_amount_to_be_distributed + deposit_amount;
        } else {
            self.swap_pool.token_b_amount_to_be_distributed =
                self.swap_pool.token_b_amount_to_be_distributed + deposit_amount;
        }

        let mut instructions: Vec<TokenInstruction> = Vec::new();
        instructions.push(
            transfer_tokens(deposit_amount, self.token_mint, Holder::User, Holder::PoolReserve),
        );
        let pool_share_token_mint = if is_token_a {
            self.swap_pool.pool_share_token_a_mint
        } else {
            self.swap_pool.pool_share_token_b_mint
        };
        let mut minting = mint_frozen_tokens(
            deposit_amount,
            pool_share_token_mint,
            Holder::User,
            self.investor_pool_share_token_account.is_frozen,
        );
        instructions.append(&mut minting);

        // the deposit that completes the funding activates the pool
        self.swap_pool.activate_if_funded(now);

        assert(instructions@ =~= old(self).instructions(amount));
        Ok(instructions)
    }
}

} // verus!
