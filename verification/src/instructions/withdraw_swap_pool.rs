use crate::constants::{NOT_ACTIVATED, SECONDS_PER_DAY};
use crate::error::SwapverseError;
use crate::math::mul_div;
use crate::spl_token_utils::{
    burn_instructions,
    burn_tokens,
    signed_transfer_tokens,
    Holder,
    TokenAccount,
    TokenInstruction,
};
use crate::states::investor_pool_info::InvestorPoolInfo;
use crate::states::swap_pool::{lemma_event_keeps_pool_well_formed, PoolEvent, SwapPool};
use vstd::prelude::*;

verus! {

/// A withdrawal of principal: an investor takes back a part of one leg in
/// proportion to the shares held, and the shares paid for are burnt.
///
/// Withdrawals open lazily: the first attempt after the pool's deadline
/// opens the pool and fixes, from the reserves of that moment, what there is
/// to pay back.
#[derive(Clone, Copy, Debug, PartialEq, Eq)]
pub struct WithdrawSwapPool {
    pub swap_pool: SwapPool,
    /// The pool's reserve of asset A.
    pub swap_pool_token_a_account: TokenAccount,
    /// The pool's reserve of asset B.
    pub swap_pool_token_b_account: TokenAccount,
    /// The investor's shares of leg A.
    pub investor_pool_share_token_a_account: TokenAccount,
    /// The investor's shares of leg B.
    pub investor_pool_share_token_b_account: TokenAccount,
    /// What the investor has been paid so far.
    pub investor_pool_info: InvestorPoolInfo,
}

/// The time `days` whole days after `start`.
fn days_after(start: i64, days: u64) -> (time: i128)
    ensures
        time == start + days * SECONDS_PER_DAY,
{
    assert(0 <= days * SECONDS_PER_DAY <= 0xffff_ffff_ffff_ffff * 86_400) by (nonlinear_arith)
        requires
            0 <= days <= 0xffff_ffff_ffff_ffff,
            SECONDS_PER_DAY == 86_400,
    ;
    (start as i128) + (days as i128) * (SECONDS_PER_DAY as i128)
}

impl WithdrawSwapPool {
    /// What the withdrawal check at time `now` does to the pool.
    pub open spec fn check_event(&self, now: i64) -> PoolEvent {
        PoolEvent::WithdrawalCheck {
            now,
            balance_a: self.swap_pool_token_a_account.amount,
            balance_b: self.swap_pool_token_b_account.amount,
        }
    }

    /// The pool after the withdrawal check at time `now`.
    pub open spec fn checked_pool(&self, now: i64) -> SwapPool {
        self.swap_pool.after(self.check_event(now))
    }

    /// The investor's shares of one leg.
    pub open spec fn investor_pool_share_account(&self, is_token_a: bool) -> TokenAccount {
        if is_token_a {
            self.investor_pool_share_token_a_account
        } else {
            self.investor_pool_share_token_b_account
        }
    }

    /// The principal of one leg that the investor's shares stand for, once
    /// the withdrawal check at time `now` has been made.
    pub open spec fn entitlement(&self, is_token_a: bool, now: i64) -> int {
        self.checked_pool(now).principal_entitlement(
            is_token_a,
            self.investor_pool_share_account(is_token_a).amount,
        )
    }

    /// What of the entitlement has not been paid yet.
    pub open spec fn remaining(&self, is_token_a: bool, now: i64) -> int {
        self.entitlement(is_token_a, now) - self.investor_pool_info.principal_withdrawn(
            is_token_a,
        )
    }

    /// What is paid on a request for `amount`: all of it, or as much as
    /// remains of the entitlement.
    pub open spec fn withdraw_amount(&self, is_token_a: bool, amount: u64, now: i64) -> int {
        if amount <= self.remaining(is_token_a, now) {
            amount as int
        } else {
            self.remaining(is_token_a, now)
        }
    }

    /// Whether every amount that the withdrawal has to work out is within
    /// range.
    ///
    /// Nothing is asked while the pool stays closed for withdrawal. Once it
    /// is open, the shares must be measured against something, the
    /// entitlement must be a 64-bit amount, and no more than the entitlement
    /// may have been paid.
    pub open spec fn in_range(&self, is_token_a: bool, now: i64) -> bool {
        self.checked_pool(now).open_for_withdrawal ==> {
            &&& self.checked_pool(now).withdrawal_basis(is_token_a) > 0
            &&& self.investor_pool_info.principal_withdrawn(is_token_a) <= self.entitlement(
                is_token_a,
                now,
            ) <= u64::MAX
        }
    }

    /// Why a request for `amount` is rejected, if it is.
    pub open spec fn rejection(&self, is_token_a: bool, amount: u64, now: i64) -> Option<
        SwapverseError,
    > {
        if !self.checked_pool(now).open_for_withdrawal {
            Some(SwapverseError::SwapPoolNotOpenForWithdrawal)
        } else if self.withdraw_amount(is_token_a, amount, now) > self.investor_pool_share_account(
            is_token_a,
        ).amount {
            Some(SwapverseError::NotEnoughTokens)
        } else {
            None
        }
    }

    /// The investor's position after a payment of `paid` on one leg.
    pub open spec fn info_after(&self, is_token_a: bool, paid: u64) -> InvestorPoolInfo {
        let total = (self.investor_pool_info.principal_withdrawn(is_token_a) + paid) as u64;
        if is_token_a {
            InvestorPoolInfo { token_a_withdrawn: total, ..self.investor_pool_info }
        } else {
            InvestorPoolInfo { token_b_withdrawn: total, ..self.investor_pool_info }
        }
    }

    /// What an accepted request asks of the ledger: pay the investor out of
    /// the pool's reserve, and burn as many of the investor's frozen shares.
    pub open spec fn instructions(&self, is_token_a: bool, amount: u64, now: i64) -> Seq<
        TokenInstruction,
    > {
        seq![
            TokenInstruction::Transfer {
                mint: self.swap_pool.token_mint(is_token_a),
                from: Holder::PoolReserve,
                to: Holder::User,
                amount: self.withdraw_amount(is_token_a, amount, now) as u64,
                signed: true,
            },
        ] + burn_instructions(
            self.withdraw_amount(is_token_a, amount, now) as u64,
            self.swap_pool.pool_share_token_mint(is_token_a),
            Holder::User,
            self.investor_pool_share_account(is_token_a).is_frozen,
        )
    }

    /// Opens the pool for withdrawal if it is not open and, at time `now`,
    /// its deadline has passed: the fill deadline of a pool that has not been
    /// activated, the end of life of one that has.
    ///
    /// On a pool that is open for withdrawal already this does nothing.
    pub fn check_for_withdrawal_open(&mut self, now: i64)
        requires
            old(self).swap_pool.wf(),
        ensures
            final(self).swap_pool == old(self).checked_pool(now),
            final(self).swap_pool.wf(),
            old(self).swap_pool.open_for_withdrawal ==> *final(self) == *old(self),
            final(self).swap_pool_token_a_account == old(self).swap_pool_token_a_account,
            final(self).swap_pool_token_b_account == old(self).swap_pool_token_b_account,
            final(self).investor_pool_share_token_a_account
                == old(self).investor_pool_share_token_a_account,
            final(self).investor_pool_share_token_b_account
                == old(self).investor_pool_share_token_b_account,
            final(self).investor_pool_info == old(self).investor_pool_info,
    {
        proof {
            lemma_event_keeps_pool_well_formed(self.swap_pool, self.check_event(now));
        }
        if !self.swap_pool.open_for_withdrawal {
            let time_now = now as i128;
            if !self.swap_pool.active_for_swap {
                let max_activation_time = days_after(
                    self.swap_pool.created_at,
                    self.swap_pool.max_days_to_fill as u64,
                );
                if time_now > max_activation_time {
                    self.swap_pool.open_for_investment = false;
                    self.swap_pool.open_for_withdrawal = true;
                    self.set_withdrawable_values();
                }
            } else {
                let max_pool_life = days_after(
                    self.swap_pool.created_at,
                    self.swap_pool.swap_life_in_days,
                );
                if time_now > max_pool_life {
                    self.swap_pool.open_for_investment = false;
                    self.swap_pool.open_for_withdrawal = true;
                    self.set_withdrawable_values();
                }
            }
        }
    }

    /// Takes the pool's reserves as the principal that is there to be paid
    /// back.
    pub fn set_withdrawable_values(&mut self)
        ensures
            *final(self) == (WithdrawSwapPool {
                swap_pool: SwapPool {
                    token_a_amount_to_be_distributed: old(self).swap_pool_token_a_account.amount,
                    token_b_amount_to_be_distributed: old(self).swap_pool_token_b_account.amount,
                    ..old(self).swap_pool
                },
                ..*old(self)
            }),
    {
        self.swap_pool.token_a_amount_to_be_distributed = self.swap_pool_token_a_account.amount;
        self.swap_pool.token_b_amount_to_be_distributed = self.swap_pool_token_b_account.amount;
    }

    /// Whether `withdraw_swap_pool` may be called with these arguments.
    pub fn check_in_range(&self, is_token_a: bool, now: i64) -> (ok: bool)
        requires
            self.swap_pool.wf(),
        ensures
            ok == self.in_range(is_token_a, now),
    {
        let mut checked = *self;
        checked.check_for_withdrawal_open(now);
        if !checked.swap_pool.open_for_withdrawal {
            return true;
        }
        match checked.entitlement_of(is_token_a) {
            Some(entitlement) => {
                let withdrawn = if is_token_a {
                    self.investor_pool_info.token_a_withdrawn
                } else {
                    self.investor_pool_info.token_b_withdrawn
                };
                withdrawn <= entitlement
            },
            None => false,
        }
    }

    /// The principal of one leg that the investor's shares stand for, as the
    /// pool stands. `None` if there is nothing to measure the shares against
    /// or the result is no 64-bit amount.
    fn entitlement_of(&self, is_token_a: bool) -> (entitlement: Option<u64>)
        ensures
            entitlement is Some <==> {
                &&& self.swap_pool.withdrawal_basis(is_token_a) > 0
                &&& self.swap_pool.principal_entitlement(
                    is_token_a,
                    self.investor_pool_share_account(is_token_a).amount,
                ) <= u64::MAX
            },
            entitlement matches Some(e) ==> e == self.swap_pool.principal_entitlement(
                is_token_a,
                self.investor_pool_share_account(is_token_a).amount,
            ),
    {
        let investor_pool_share_amount = if is_token_a {
            self.investor_pool_share_token_a_account.amount
        } else {
            self.investor_pool_share_token_b_account.amount
        };
        let pool_distribution_token_amount = if is_token_a {
            self.swap_pool.token_a_amount_to_be_distributed
        } else {
            self.swap_pool.token_b_amount_to_be_distributed
        };
        let initial_token_amount = if self.swap_pool.activated_at != NOT_ACTIVATED {
            if is_token_a {
                self.swap_pool.initial_amount_a
            } else {
                self.swap_pool.initial_amount_b
            }
        } else {
            pool_distribution_token_amount
        };
        if initial_token_amount == 0 {
            return None;
        }
        let entitlement = mul_div(
            pool_distribution_token_amount,
            investor_pool_share_amount,
            initial_token_amount,
        );
        if entitlement > u64::MAX as u128 {
            return None;
        }
        Some(entitlement as u64)
    }

    /// Asks at time `now` for `amount` of the principal of one leg.
    ///
    /// The pool is first opened for withdrawal if its deadline has passed.
    /// The request is rejected if the pool is then not open for withdrawal
    /// (`SwapPoolNotOpenForWithdrawal`), or if the investor holds fewer
    /// shares than units would be paid (`NotEnoughTokens`).
    ///
    /// Otherwise the investor is paid `amount`, or what remains of the
    /// entitlement if that is less, and the payment is added to the
    /// investor's position.
    pub fn withdraw_swap_pool(&mut self, is_token_a: bool, amount: u64, now: i64) -> (result:
        Result<Vec<TokenInstruction>, SwapverseError>)
        requires
            old(self).swap_pool.wf(),
            old(self).in_range(is_token_a, now),
        ensures
            match result {
                Ok(instructions) => {
                    &&& old(self).rejection(is_token_a, amount, now) is None
                    &&& instructions@ == old(self).instructions(is_token_a, amount, now)
                    &&& final(self).swap_pool == old(self).checked_pool(now)
                    &&& final(self).investor_pool_info == old(self).info_after(
                        is_token_a,
                        old(self).withdraw_amount(is_token_a, amount, now) as u64,
                    )
                    &&& final(self).investor_pool_info.principal_withdrawn(is_token_a)
                        <= old(self).entitlement(is_token_a, now)
                },
                Err(e) => {
                    &&& old(self).rejection(is_token_a, amount, now) == Some(e)
                    &&& final(self).swap_pool == old(self).swap_pool
                    &&& final(self).investor_pool_info == old(self).investor_pool_info
                },
            },
            final(self).swap_pool.wf(),
            old(self).investor_pool_info.grows_into(final(self).investor_pool_info),
            final(self).swap_pool_token_a_account == old(self).swap_pool_token_a_account,
            final(self).swap_pool_token_b_account == old(self).swap_pool_token_b_account,
            final(self).investor_pool_share_token_a_account
                == old(self).investor_pool_share_token_a_account,
            final(self).investor_pool_share_token_b_account
                == old(self).investor_pool_share_token_b_account,
    {
        let mut checked = *self;
        checked.check_for_withdrawal_open(now);

        if !checked.swap_pool.open_for_withdrawal {
            return Err(SwapverseError::SwapPoolNotOpenForWithdrawal);
        }
        let entitlement = checked.entitlement_of(is_token_a).unwrap();
        let withdrawn = if is_token_a {
            self.investor_pool_info.token_a_withdrawn
        } else {
            self.investor_pool_info.token_b_withdrawn
        };
        let remaining = entitlement - withdrawn;
        let withdraw_amount = if amount <= remaining {
            amount
        } else {
            remaining
        };

        let (token_mint, pool_share_token_mint, investor_pool_share_account) = if is_token_a {
            (
                self.swap_pool.token_a_mint,
                self.swap_pool.pool_share_token_a_mint,
                self.investor_pool_share_token_a_account,
            )
        } else {
            (
                self.swap_pool.token_b_mint,
                self.swap_pool.pool_share_token_b_mint,
                self.investor_pool_share_token_b_account,
            )
        };
        let mut burning = burn_tokens(
            withdraw_amount,
            pool_share_token_mint,
            Holder::User,
            &investor_pool_share_account,
        )?;

        self.swap_pool = checked.swap_pool;
        if is_token_a {
            self.investor_pool_info.token_a_withdrawn = withdrawn + withdraw_amount;
        } else {
            self.investor_pool_info.token_b_withdrawn = withdrawn + withdraw_amount;
        }

        let mut instructions: Vec<TokenInstruction> = Vec::new();
        instructions.push(
            signed_transfer_tokens(withdraw_amount, token_mint, Holder::PoolReserve, Holder::User),
        );
        instructions.append(&mut burning);
        assert(instructions@ =~= old(self).instructions(is_token_a, amount, now));
        Ok(instructions)
    }
}

} // verus!
