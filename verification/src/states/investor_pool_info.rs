use crate::pubkey::Pubkey;
use vstd::prelude::*;

verus! {

/// One investor's position in one pool: what has been paid out so far.
///
/// The four totals only ever grow, and the operations that raise one keep it
/// within the investor's entitlement.
#[derive(Clone, Copy, Debug, PartialEq, Eq)]
pub struct InvestorPoolInfo {
    /// The investor.
    pub investor: Pubkey,
    /// The pool.
    pub swap_pool: Pubkey,
    /// Principal of asset A paid out so far.
    pub token_a_withdrawn: u64,
    /// Principal of asset B paid out so far.
    pub token_b_withdrawn: u64,
    /// Profit in asset A paid out so far.
    pub profit_for_token_a_withdrawn: u64,
    /// Profit in asset B paid out so far.
    pub profit_for_token_b_withdrawn: u64,
}

impl Default for InvestorPoolInfo {
    /// The blank position: nothing paid out.
    fn default() -> (info: InvestorPoolInfo)
        ensures
            info.investor == Pubkey::zero(),
            info.swap_pool == Pubkey::zero(),
            info.token_a_withdrawn == 0,
            info.token_b_withdrawn == 0,
            info.profit_for_token_a_withdrawn == 0,
            info.profit_for_token_b_withdrawn == 0,
    {
        InvestorPoolInfo {
            investor: Pubkey::default(),
            swap_pool: Pubkey::default(),
            token_a_withdrawn: 0,
            token_b_withdrawn: 0,
            profit_for_token_a_withdrawn: 0,
            profit_for_token_b_withdrawn: 0,
        }
    }
}

impl InvestorPoolInfo {
    /// Principal paid out so far on one leg.
    pub open spec fn principal_withdrawn(&self, is_token_a: bool) -> u64 {
        if is_token_a {
            self.token_a_withdrawn
        } else {
            self.token_b_withdrawn
        }
    }

    /// Profit paid out so far on one leg.
    pub open spec fn profit_withdrawn(&self, is_token_a: bool) -> u64 {
        if is_token_a {
            self.profit_for_token_a_withdrawn
        } else {
            self.profit_for_token_b_withdrawn
        }
    }

    /// How a position may look after any number of operations on `self`: it
    /// belongs to the same investor and pool, and no total has gone down.
    pub open spec fn grows_into(&self, later: InvestorPoolInfo) -> bool {
        &&& later.investor == self.investor
        &&& later.swap_pool == self.swap_pool
        &&& self.token_a_withdrawn <= later.token_a_withdrawn
        &&& self.token_b_withdrawn <= later.token_b_withdrawn
        &&& self.profit_for_token_a_withdrawn <= later.profit_for_token_a_withdrawn
        &&& self.profit_for_token_b_withdrawn <= later.profit_for_token_b_withdrawn
    }
}

/// What has been paid out never goes down: a position grows into itself,
/// and growth over one stretch of operations and over the next is growth over
/// both.
pub proof fn lemma_withdrawn_never_decreases(
    first: InvestorPoolInfo,
    second: InvestorPoolInfo,
    third: InvestorPoolInfo,
)
    requires
        first.grows_into(second),
        second.grows_into(third),
    ensures
        first.grows_into(first),
        first.grows_into(third),
{
}

} // verus!
