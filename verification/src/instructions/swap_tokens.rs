use crate::error::SwapverseError;
use crate::math::{
    lemma_pro_rata_bounds,
    lemma_quotient_times_divisor,
    mul_div,
    percentage_of,
    product,
};
use crate::spl_token_utils::{
    signed_transfer_tokens,
    transfer_tokens,
    Holder,
    TokenAccount,
    TokenInstruction,
};
use crate::states::swap_pool::{PoolEvent, SwapPool};
use vstd::prelude::*;

verus! {

/// A swap: a trader pays one asset into the pool and is paid the other.
///
/// The price follows from a constant product: the pool's two targets
/// multiplied. It is fixed when the pool is created and does not move with
/// the reserves.
#[derive(Clone, Copy, Debug, PartialEq, Eq)]
pub struct SwapToken {
    pub swap_pool: SwapPool,
    /// The trader's account of asset A.
    pub user_token_a_account: TokenAccount,
    /// The trader's account of asset B.
    pub user_token_b_account: TokenAccount,
    /// The pool's reserve of asset A.
    pub swap_pool_token_a_account: TokenAccount,
    /// The pool's reserve of asset B.
    pub swap_pool_token_b_account: TokenAccount,
}

impl SwapToken {
    /// The trader's balance of the asset paid in.
    pub open spec fn user_balance_in(&self, is_token_in_token_a: bool) -> u64 {
        if is_token_in_token_a {
            self.user_token_a_account.amount
        } else {
            self.user_token_b_account.amount
        }
    }

    /// The pool's reserve of the asset paid in.
    pub open spec fn reserve_in(&self, is_token_in_token_a: bool) -> u64 {
        if is_token_in_token_a {
            self.swap_pool_token_a_account.amount
        } else {
            self.swap_pool_token_b_account.amount
        }
    }

    /// The pool's reserve of the asset paid out.
    pub open spec fn reserve_out(&self, is_token_in_token_a: bool) -> u64 {
        if is_token_in_token_a {
            self.swap_pool_token_b_account.amount
        } else {
            self.swap_pool_token_a_account.amount
        }
    }

    /// The constant product that prices the pool's swaps.
    pub open spec fn constant_product(&self) -> int {
        self.swap_pool.initial_amount_a * self.swap_pool.initial_amount_b
    }

    /// The reserve of the asset paid in, once `amount` has been added to it.
    pub open spec fn effective_reserve_in(&self, amount: u64, is_token_in_token_a: bool) -> int {
        self.reserve_in(is_token_in_token_a) + amount
    }

    /// The reserve of the asset paid out that the constant product leaves:
    /// the product divided by the new reserve of the other asset, rounded
    /// down.
    pub open spec fn effective_reserve_out(&self, amount: u64, is_token_in_token_a: bool) -> int {
        self.constant_product() / self.effective_reserve_in(amount, is_token_in_token_a)
    }

    /// What leaves the reserve of the asset paid out.
    pub open spec fn output_amount(&self, amount: u64, is_token_in_token_a: bool) -> int {
        self.reserve_out(is_token_in_token_a) - self.effective_reserve_out(
            amount,
            is_token_in_token_a,
        )
    }

    /// The part of the output that is kept as fee.
    pub open spec fn treasury_share(&self, amount: u64, is_token_in_token_a: bool) -> int {
        percentage_of(
            self.output_amount(amount, is_token_in_token_a),
            self.swap_pool.swap_fee_percentage as int,
        )
    }

    /// The part of the output that the trader receives.
    pub open spec fn user_share(&self, amount: u64, is_token_in_token_a: bool) -> int {
        self.output_amount(amount, is_token_in_token_a) - self.treasury_share(
            amount,
            is_token_in_token_a,
        )
    }

    /// The reserve of the asset paid out, once the trader's share and the
    /// fee have left it.
    pub open spec fn reserve_out_after(&self, amount: u64, is_token_in_token_a: bool) -> int {
        self.reserve_out(is_token_in_token_a) - self.user_share(amount, is_token_in_token_a)
            - self.treasury_share(amount, is_token_in_token_a)
    }

    /// Whether the price of the swap can be worked out: the reserve paid
    /// into stays a positive 64-bit amount, the reserve paid out can cover
    /// the output, and the fee is no more than the output.
    pub open spec fn quote_in_range(&self, amount: u64, is_token_in_token_a: bool) -> bool {
        &&& 0 < self.effective_reserve_in(amount, is_token_in_token_a) <= u64::MAX
        &&& self.effective_reserve_out(amount, is_token_in_token_a) <= self.reserve_out(
            is_token_in_token_a,
        )
        &&& self.treasury_share(amount, is_token_in_token_a) <= self.output_amount(
            amount,
            is_token_in_token_a,
        )
    }

    /// Why the swap is rejected, if it is.
    pub open spec fn rejection(
        &self,
        amount: u64,
        min_amount_out: u64,
        is_token_in_token_a: bool,
    ) -> Option<SwapverseError> {
        if !self.swap_pool.active_for_swap {
            Some(SwapverseError::SwapPoolNotActivated)
        } else if self.user_balance_in(is_token_in_token_a) < amount {
            Some(SwapverseError::NotEnoughTokens)
        } else if self.user_share(amount, is_token_in_token_a) < min_amount_out {
            Some(SwapverseError::NotEnoughOutput)
        } else {
            None
        }
    }

    /// Whether every amount that the swap has to work out is within range.
    ///
    /// Nothing is asked of a swap that is turned down before its price is
    /// needed. Of the others the price must be in range, and of those that
    /// go through the fee must fit into the pool's total of fees.
    pub open spec fn in_range(&self, amount: u64, min_amount_out: u64, is_token_in_token_a: bool)
        -> bool {
        self.swap_pool.active_for_swap && self.user_balance_in(is_token_in_token_a) >= amount
            ==> {
            &&& self.quote_in_range(amount, is_token_in_token_a)
            &&& self.user_share(amount, is_token_in_token_a) >= min_amount_out
                ==> self.swap_pool.profit_to_be_distributed(!is_token_in_token_a)
                + self.treasury_share(amount, is_token_in_token_a) <= u64::MAX
        }
    }

    /// What an accepted swap does to the pool: the fee is added to the fees
    /// collected in the asset paid out.
    pub open spec fn event(&self, amount: u64, is_token_in_token_a: bool) -> PoolEvent {
        PoolEvent::SwapFee {
            is_token_a: !is_token_in_token_a,
            amount: self.treasury_share(amount, is_token_in_token_a) as u64,
        }
    }

    /// What an accepted swap asks of the ledger: pay the trader out of the
    /// reserve, move the fee from the reserve to the treasury, and take the
    /// trader's payment into the reserve.
    pub open spec fn instructions(&self, amount: u64, is_token_in_token_a: bool) -> Seq<
        TokenInstruction,
    > {
        let mint_in = self.swap_pool.token_mint(is_token_in_token_a);
        let mint_out = self.swap_pool.token_mint(!is_token_in_token_a);
        seq![
            TokenInstruction::Transfer {
                mint: mint_out,
                from: Holder::PoolReserve,
                to: Holder::User,
                amount: self.user_share(amount, is_token_in_token_a) as u64,
                signed: true,
            },
            TokenInstruction::Transfer {
                mint: mint_out,
                from: Holder::PoolReserve,
                to: Holder::PoolTreasury,
                amount: self.treasury_share(amount, is_token_in_token_a) as u64,
                signed: true,
            },
            TokenInstruction::Transfer {
                mint: mint_in,
                from: Holder::User,
                to: Holder::PoolReserve,
                amount,
                signed: false,
            },
        ]
    }

    /// Works out the price of a swap: what the trader receives and what is
    /// kept as fee. `None` if the price is not in range.
    fn quote(&self, amount: u64, is_token_in_token_a: bool) -> (shares: Option<(u64, u64)>)
        ensures
            shares is Some <==> self.quote_in_range(amount, is_token_in_token_a),
            shares matches Some((user_share, treasury_share)) ==> {
                &&& user_share == self.user_share(amount, is_token_in_token_a)
                &&& treasury_share == self.treasury_share(amount, is_token_in_token_a)
            },
    {
        let constant_product = product(
            self.swap_pool.initial_amount_a,
            self.swap_pool.initial_amount_b,
        );
        let (reserve_in, reserve_out) = if is_token_in_token_a {
            (self.swap_pool_token_a_account.amount, self.swap_pool_token_b_account.amount)
        } else {
            (self.swap_pool_token_b_account.amount, self.swap_pool_token_a_account.amount)
        };

        let effective_reserve_in = match reserve_in.checked_add(amount) {
            Some(sum) => sum,
            None => {
                return None;
            },
        };
        if effective_reserve_in == 0 {
            return None;
        }
        let effective_reserve_out = constant_product / (effective_reserve_in as u128);
        if effective_reserve_out > reserve_out as u128 {
            return None;
        }
        let output_amount = reserve_out - (effective_reserve_out as u64);

        let treasury_share = mul_div(output_amount, self.swap_pool.swap_fee_percentage as u64, 100);
        if treasury_share > output_amount as u128 {
            return None;
        }
        let treasury_share = treasury_share as u64;
        let user_share = output_amount - treasury_share;

        Some((user_share, treasury_share))
    }

    /// Whether `swap_token` may be called with these arguments.
    pub fn check_in_range(
        &self,
        amount: u64,
        min_amount_out: u64,
        is_token_in_token_a: bool,
    ) -> (ok: bool)
        ensures
            ok == self.in_range(amount, min_amount_out, is_token_in_token_a),
    {
        let user_balance = if is_token_in_token_a {
            self.user_token_a_account.amount
        } else {
            self.user_token_b_account.amount
        };
        if !self.swap_pool.active_for_swap || user_balance < amount {
            return true;
        }
        match self.quote(amount, is_token_in_token_a) {
            None => false,
            Some((user_share, treasury_share)) => {
                let profit = if is_token_in_token_a {
                    self.swap_pool.profit_of_token_b_amount_to_be_distributed
                } else {
                    self.swap_pool.profit_of_token_a_amount_to_be_distributed
                };
                user_share < min_amount_out || profit.checked_add(treasury_share).is_some()
            },
        }
    }

    /// Swaps `amount` of one asset for the other.
    ///
    /// The swap is rejected if the pool is not active (`SwapPoolNotActivated`),
    /// if the trader holds less than `amount` (`NotEnoughTokens`), or if the
    /// trader would receive less than `min_amount_out` (`NotEnoughOutput`).
    /// Otherwise the fee is added to the pool's fees in the asset paid out,
    /// and the three transfers are returned.
    pub fn swap_token(
        &mut self,
        amount: u64,
        min_amount_out: u64,
        is_token_in_token_a: bool,
    ) -> (result: Result<Vec<TokenInstruction>, SwapverseError>)
        requires
            old(self).swap_pool.wf(),
            old(self).in_range(amount, min_amount_out, is_token_in_token_a),
        ensures
            match result {
                Ok(instructions) => {
                    &&& old(self).rejection(amount, min_amount_out, is_token_in_token_a) is None
                    &&& instructions@ == old(self).instructions(amount, is_token_in_token_a)
                    &&& old(self).swap_pool.accepts(old(self).event(amount, is_token_in_token_a))
                    &&& final(self).swap_pool == old(self).swap_pool.after(
                        old(self).event(amount, is_token_in_token_a),
                    )
                },
                Err(e) => {
                    &&& old(self).rejection(amount, min_amount_out, is_token_in_token_a) == Some(e)
                    &&& final(self).swap_pool == old(self).swap_pool
                },
            },
            final(self).swap_pool.wf(),
            final(self).user_token_a_account == old(self).user_token_a_account,
            final(self).user_token_b_account == old(self).user_token_b_account,
            final(self).swap_pool_token_a_account == old(self).swap_pool_token_a_account,
            final(self).swap_pool_token_b_account == old(self).swap_pool_token_b_account,
    {
        if !self.swap_pool.active_for_swap {
            return Err(SwapverseError::SwapPoolNotActivated);
        }
        let user_balance = if is_token_in_token_a {
            self.user_token_a_account.amount
        } else {
            self.user_token_b_account.amount
        };
        if user_balance < amount {
            return Err(SwapverseError::NotEnoughTokens);
        }
        let (user_share, treasury_share) = self.quote(amount, is_token_in_token_a).unwrap();
        if user_share < min_amount_out {
            return Err(SwapverseError::NotEnoughOutput);
        }
        let (mint_in, mint_out) = if is_token_in_token_a {
            (self.swap_pool.token_a_mint, self.swap_pool.token_b_mint)
        } else {
            (self.swap_pool.token_b_mint, self.swap_pool.token_a_mint)
        };

        if is_token_in_token_a {
            self.swap_pool.profit_of_token_b_amount_to_be_distributed =
                self.swap_pool.profit_of_token_b_amount_to_be_distributed + treasury_share;
        } else {
            self.swap_pool.profit_of_token_a_amount_to_be_distributed =
                self.swap_pool.profit_of_token_a_amount_to_be_distributed + treasury_share;
        }

        let mut instructions: Vec<TokenInstruction> = Vec::new();
        instructions.push(
            signed_transfer_tokens(user_share, mint_out, Holder::PoolReserve, Holder::User),
        );
        instructions.push(
            signed_transfer_tokens(
                treasury_share,
                mint_out,
                Holder::PoolReserve,
                Holder::PoolTreasury,
            ),
        );
        instructions.push(transfer_tokens(amount, mint_in, Holder::User, Holder::PoolReserve));
        assert(instructions@ =~= old(self).instructions(amount, is_token_in_token_a));
        Ok(instructions)
    }
}

/// A swap leaves the reserves on the curve of the constant product: the
/// reserve paid out of ends at the product divided by the reserve paid into,
/// rounded down. Only the rounding keeps the product of the two reserves
/// from being the constant product, and it keeps it below.
///
/// What leaves the reserve is split between the trader and the treasury and
/// goes nowhere else.
pub proof fn lemma_swap_follows_constant_product(
    ctx: SwapToken,
    amount: u64,
    is_token_in_token_a: bool,
)
    requires
        ctx.quote_in_range(amount, is_token_in_token_a),
    ensures
        ctx.reserve_out_after(amount, is_token_in_token_a) == ctx.constant_product()
            / ctx.effective_reserve_in(amount, is_token_in_token_a),
        ctx.constant_product() - ctx.effective_reserve_in(amount, is_token_in_token_a)
            < ctx.effective_reserve_in(amount, is_token_in_token_a) * ctx.reserve_out_after(
            amount,
            is_token_in_token_a,
        ) <= ctx.constant_product(),
        ctx.user_share(amount, is_token_in_token_a) + ctx.treasury_share(
            amount,
            is_token_in_token_a,
        ) == ctx.output_amount(amount, is_token_in_token_a),
        0 <= ctx.user_share(amount, is_token_in_token_a) <= ctx.output_amount(
            amount,
            is_token_in_token_a,
        ),
        0 <= ctx.treasury_share(amount, is_token_in_token_a) <= ctx.output_amount(
            amount,
            is_token_in_token_a,
        ),
{
    assert(0 <= ctx.constant_product()) by (nonlinear_arith)
        requires
            ctx.constant_product() == ctx.swap_pool.initial_amount_a
                * ctx.swap_pool.initial_amount_b,
    ;
    lemma_quotient_times_divisor(
        ctx.constant_product(),
        ctx.effective_reserve_in(amount, is_token_in_token_a),
    );
    lemma_pro_rata_bounds(
        ctx.output_amount(amount, is_token_in_token_a),
        ctx.swap_pool.swap_fee_percentage as int,
        100,
    );
}

/// Conservation: a swap whose new reserve divides the constant product
/// leaves two reserves whose product is the constant product exactly. No
/// value is made or lost beyond the split of the output into the trader's
/// share and the fee.
pub proof fn lemma_swap_conserves_constant_product(
    ctx: SwapToken,
    amount: u64,
    is_token_in_token_a: bool,
)
    requires
        ctx.quote_in_range(amount, is_token_in_token_a),
        ctx.constant_product() % ctx.effective_reserve_in(amount, is_token_in_token_a) == 0,
    ensures
        ctx.effective_reserve_in(amount, is_token_in_token_a) * ctx.reserve_out_after(
            amount,
            is_token_in_token_a,
        ) == ctx.constant_product(),
{
    assert(0 <= ctx.constant_product()) by (nonlinear_arith)
        requires
            ctx.constant_product() == ctx.swap_pool.initial_amount_a
                * ctx.swap_pool.initial_amount_b,
    ;
    lemma_quotient_times_divisor(
        ctx.constant_product(),
        ctx.effective_reserve_in(amount, is_token_in_token_a),
    );
}

} // verus!
