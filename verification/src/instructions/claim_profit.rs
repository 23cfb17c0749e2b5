use crate::constants::NOT_ACTIVATED;
use crate::error::SwapverseError;
use crate::math::mul_div;
use crate::pubkey::Pubkey;
use crate::spl_token_utils::{signed_transfer_tokens, Holder, TokenAccount, TokenInstruction};
use crate::states::investor_pool_info::InvestorPoolInfo;
use crate::states::swap_pool::SwapPool;
use vstd::prelude::*;

verus! {

/// A claim of profit: an investor takes a part of the fees that the pool
/// has collected in one asset, in proportion to the shares held.
///
/// Of the fees collected the protocol keeps its percentage; the rest is the
/// investors'.
#[derive(Clone, Copy, Debug, PartialEq, Eq)]
pub struct ClaimProfit {
    pub swap_pool: SwapPool,
    /// The asset in which profit is claimed.
    pub withdraw_token_mint: Pubkey,
    /// The investor's shares of that leg.
    pub investor_pool_share_token_account: TokenAccount,
    /// What the investor has been paid so far.
    pub investor_pool_info: InvestorPoolInfo,
}

impl ClaimProfit {
    /// Whether the asset claimed is one of the pool's two.
    pub open spec fn mint_is_of_pool(&self) -> bool {
        self.withdraw_token_mint == self.swap_pool.token_a_mint || self.withdraw_token_mint
            == self.swap_pool.token_b_mint
    }

    /// Whether the asset claimed is the pool's asset A.
    pub open spec fn is_token_a(&self) -> bool {
        self.withdraw_token_mint == self.swap_pool.token_a_mint
    }

    /// The profit in the asset claimed that the investor's shares stand for.
    pub open spec fn investor_share(&self) -> int {
        self.swap_pool.profit_entitlement(
            self.is_token_a(),
            self.investor_pool_share_token_account.amount,
        )
    }

    /// What of the investor's share has not been paid yet.
    pub open spec fn remaining_withdrawable_amount(&self) -> int {
        self.investor_share() - self.investor_pool_info.profit_withdrawn(self.is_token_a())
    }

    /// What is paid on a claim of `amount`: all of it, or as much as remains
    /// of the investor's share.
    pub open spec fn withdraw_amount(&self, amount: u64) -> int {
        if amount <= self.remaining_withdrawable_amount() {
            amount as int
        } else {
            self.remaining_withdrawable_amount()
        }
    }

    /// Whether every amount that the claim has to work out is within range.
    ///
    /// Nothing is asked of a claim that is turned down before any amount is
    /// needed. Of the others the protocol's cut must be within the fees
    /// collected, the investor's share must be a 64-bit amount, and no more
    /// than that share may have been paid.
    pub open spec fn in_range(&self) -> bool {
        self.mint_is_of_pool() && self.swap_pool.ever_activated() ==> {
            &&& self.swap_pool.swapverse_share(self.is_token_a())
                <= self.swap_pool.profit_to_be_distributed(self.is_token_a())
            &&& self.investor_pool_info.profit_withdrawn(self.is_token_a())
                <= self.investor_share() <= u64::MAX
        }
    }

    /// Why a claim of `amount` is rejected, if it is.
    pub open spec fn rejection(&self, amount: u64) -> Option<SwapverseError> {
        if !self.mint_is_of_pool() {
            Some(SwapverseError::InvalidPoolTokenMint)
        } else if !self.swap_pool.ever_activated() {
            Some(SwapverseError::SwapPoolNotActivated)
        } else if self.withdraw_amount(amount) <= 0 {
            Some(SwapverseError::WithdrawAmountIsZero)
        } else {
            None
        }
    }

    /// The investor's position after a payment of `paid` in the asset
    /// claimed.
    pub open spec fn info_after(&self, paid: u64) -> InvestorPoolInfo {
        let total = (self.investor_pool_info.profit_withdrawn(self.is_token_a()) + paid) as u64;
        if self.is_token_a() {
            InvestorPoolInfo { profit_for_token_a_withdrawn: total, ..self.investor_pool_info }
        } else {
            InvestorPoolInfo { profit_for_token_b_withdrawn: total, ..self.investor_pool_info }
        }
    }

    /// What an accepted claim asks of the ledger: pay the investor out of
    /// the pool's treasury.
    pub open spec fn instructions(&self, amount: u64) -> Seq<TokenInstruction> {
        seq![
            TokenInstruction::Transfer {
                mint: self.withdraw_token_mint,
                from: Holder::PoolTreasury,
                to: Holder::User,
                amount: self.withdraw_amount(amount) as u64,
                signed: true,
            },
        ]
    }

    /// The profit in the asset claimed that the investor's shares stand for.
    /// `None` if it is not in range.
    fn investor_share_of(&self, is_token_a: bool) -> (investor_share: Option<u64>)
        requires
            self.swap_pool.wf(),
            self.swap_pool.ever_activated(),
            is_token_a == self.is_token_a(),
        ensures
            investor_share is Some <==> {
                &&& self.swap_pool.swapverse_share(is_token_a)
                    <= self.swap_pool.profit_to_be_distributed(is_token_a)
                &&& self.investor_share() <= u64::MAX
            },
            investor_share matches Some(share) ==> share == self.investor_share(),
    {
        let investor_pool_share_amount = self.investor_pool_share_token_account.amount;
        let pool_distribution_token_amount = if is_token_a {
            self.swap_pool.profit_of_token_a_amount_to_be_distributed
        } else {
            self.swap_pool.profit_of_token_b_amount_to_be_distributed
        };
        let initial_token_amount = if is_token_a {
            self.swap_pool.initial_amount_a
        } else {
            self.swap_pool.initial_amount_b
        };

        let swapverse_share = mul_div(
            pool_distribution_token_amount,
            self.swap_pool.swapverse_fee_percentage as u64,
            100,
        );
        if swapverse_share > pool_distribution_token_amount as u128 {
            return None;
        }
        let all_investors_share = pool_distribution_token_amount - (swapverse_share as u64);

        let investor_share = mul_div(
            all_investors_share,
            investor_pool_share_amount,
            initial_token_amount,
        );
        if investor_share > u64::MAX as u128 {
            return None;
        }
        Some(investor_share as u64)
    }

    /// Whether `claim_profit` may be called.
    pub fn check_in_range(&self) -> (ok: bool)
        requires
            self.swap_pool.wf(),
        ensures
            ok == self.in_range(),
    {
        let is_token_a = self.withdraw_token_mint == self.swap_pool.token_a_mint;
        if !is_token_a && self.withdraw_token_mint != self.swap_pool.token_b_mint {
            return true;
        }
        if self.swap_pool.activated_at == NOT_ACTIVATED {
            return true;
        }
        match self.investor_share_of(is_token_a) {
            Some(investor_share) => {
                let withdrawn = if is_token_a {
                    self.investor_pool_info.profit_for_token_a_withdrawn
                } else {
                    self.investor_pool_info.profit_for_token_b_withdrawn
                };
                withdrawn <= investor_share
            },
            None => false,
        }
    }

    /// Claims `amount` of the investor's profit in the asset
    /// `withdraw_token_mint`.
    ///
    /// The claim is rejected if the asset is neither of the pool's two
    /// (`InvalidPoolTokenMint`), if the pool has not been activated
    /// (`SwapPoolNotActivated`), or if nothing is left to pay
    /// (`WithdrawAmountIsZero`).
    ///
    /// Otherwise the investor is paid `amount`, or what remains of the
    /// investor's share if that is less, and the payment is added to the
    /// investor's position.
    pub fn claim_profit(&mut self, amount: u64) -> (result: Result<
        Vec<TokenInstruction>,
        SwapverseError,
    >)
        requires
            old(self).swap_pool.wf(),
            old(self).in_range(),
        ensures
            match result {
                Ok(instructions) => {
                    &&& old(self).rejection(amount) is None
                    &&& instructions@ == old(self).instructions(amount)
                    &&& final(self).investor_pool_info == old(self).info_after(
                        old(self).withdraw_amount(amount) as u64,
                    )
                    &&& final(self).investor_pool_info.profit_withdrawn(old(self).is_token_a())
                        <= old(self).investor_share()
                },
                Err(e) => {
                    &&& old(self).rejection(amount) == Some(e)
                    &&& final(self).investor_pool_info == old(self).investor_pool_info
                },
            },
            old(self).investor_pool_info.grows_into(final(self).investor_pool_info),
            final(self).swap_pool == old(self).swap_pool,
            final(self).withdraw_token_mint == old(self).withdraw_token_mint,
            final(self).investor_pool_share_token_account
                == old(self).investor_pool_share_token_account,
    {
        let is_token_a = self.withdraw_token_mint == self.swap_pool.token_a_mint;
        if !is_token_a && self.withdraw_token_mint != self.swap_pool.token_b_mint {
            return Err(SwapverseError::InvalidPoolTokenMint);
        }
        if self.swap_pool.activated_at == NOT_ACTIVATED {
            return Err(SwapverseError::SwapPoolNotActivated);
        }
        let investor_share = self.investor_share_of(is_token_a).unwrap();
        let withdrawn = if is_token_a {
            self.investor_pool_info.profit_for_token_a_withdrawn
        } else {
            self.investor_pool_info.profit_for_token_b_withdrawn
        };
        let remaining_withdrawable_amount = investor_share - withdrawn;

        let withdraw_amount = if amount <= remaining_withdrawable_amount {
            amount
        } else {
            remaining_withdrawable_amount
        };
        if withdraw_amount == 0 {
            return Err(SwapverseError::WithdrawAmountIsZero);
        }
        if is_token_a {
            self.investor_pool_info.profit_for_token_a_withdrawn = withdrawn + withdraw_amount;
        } else {
            self.investor_pool_info.profit_for_token_b_withdrawn = withdrawn + withdraw_amount;
        }

        let mut instructions: Vec<TokenInstruction> = Vec::new();
        instructions.push(
            signed_transfer_tokens(
                withdraw_amount,
                self.withdraw_token_mint,
                Holder::PoolTreasury,
                Holder::User,
            ),
        );
        assert(instructions@ =~= old(self).instructions(amount));
        Ok(instructions)
    }
}

} // verus!
