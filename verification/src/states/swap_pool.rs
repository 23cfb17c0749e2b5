use crate::constants::{NOT_ACTIVATED, SECONDS_PER_DAY};
use crate::error::SwapverseError;
use crate::math::{percentage_of, pro_rata};
use crate::pubkey::Pubkey;
use vstd::prelude::*;

verus! {

/// A pool of two assets, with its terms, its phase and its running totals.
///
/// A pool starts out open for investment. It becomes active for swaps with
/// the deposit that completes both legs, and opens for withdrawal once its
/// deadline has passed. It never goes back.
#[derive(Clone, Copy, Debug, PartialEq, Eq)]
pub struct SwapPool {
    pub pool_number: u64,
    pub active_for_swap: bool,
    pub open_for_investment: bool,
    pub open_for_withdrawal: bool,
    pub token_a_mint: Pubkey,
    pub token_b_mint: Pubkey,
    /// Share token given to investors for their deposits of asset A.
    pub pool_share_token_a_mint: Pubkey,
    /// Share token given to investors for their deposits of asset B.
    pub pool_share_token_b_mint: Pubkey,
    /// Amount of asset A that the pool is to be funded with.
    pub initial_amount_a: u64,
    /// Amount of asset B that the pool is to be funded with.
    pub initial_amount_b: u64,
    /// Percentage of a swap's output that is kept as fee.
    pub swap_fee_percentage: u8,
    /// Percentage of the collected fees that goes to the protocol.
    pub swapverse_fee_percentage: u8,
    /// Smallest amount that an investor may offer.
    pub min_investment_amount: u64,
    /// Days from creation within which the pool must be funded.
    pub max_days_to_fill: u8,
    /// Days from creation after which an active pool ends.
    pub swap_life_in_days: u64,
    pub created_at: i64,
    /// Time of activation; `NOT_ACTIVATED` until then.
    pub activated_at: i64,
    /// Principal of asset A: what has been deposited, and from the opening
    /// for withdrawal on what is there to be paid back.
    pub token_a_amount_to_be_distributed: u64,
    /// Principal of asset B, likewise.
    pub token_b_amount_to_be_distributed: u64,
    /// Fees collected in asset A, before the protocol's cut.
    pub profit_of_token_a_amount_to_be_distributed: u64,
    /// Fees collected in asset B, before the protocol's cut.
    pub profit_of_token_b_amount_to_be_distributed: u64,
}

/// Where a pool stands in its life.
///
/// A pool is created `Investing`. From there it goes on to `Active` when it
/// has been funded, or straight to `Withdrawing` when it has not been funded
/// in time. An `Active` pool goes on to `Withdrawing` at the end of its
/// life. No pool goes back.
#[derive(Clone, Copy, Debug, PartialEq, Eq, Structural)]
pub enum Phase {
    /// Open for investment.
    Investing,
    /// Funded and active for swaps.
    Active,
    /// Open for withdrawal.
    Withdrawing,
}

impl Phase {
    /// Whether a pool in phase `self` may later be found in phase `later`.
    pub open spec fn leads_to(self, later: Phase) -> bool {
        match (self, later) {
            (Phase::Investing, _) => true,
            (Phase::Active, Phase::Active) => true,
            (_, Phase::Withdrawing) => true,
            _ => false,
        }
    }
}

/// What can happen to a pool.
///
/// Every operation of the engine changes a pool by at most one of these.
#[derive(Clone, Copy, Debug, PartialEq, Eq)]
pub enum PoolEvent {
    /// `amount` of one asset has been accepted as a deposit at time `now`.
    Deposit { is_token_a: bool, amount: u64, now: i64 },
    /// A swap has paid `amount` of one asset as fee.
    SwapFee { is_token_a: bool, amount: u64 },
    /// Someone has asked at time `now` whether withdrawals are open, while
    /// the pool's reserves stood at `balance_a` and `balance_b`.
    WithdrawalCheck { now: i64, balance_a: u64, balance_b: u64 },
}

impl Default for SwapPool {
    /// The blank record that `initialize` fills in.
    fn default() -> (pool: SwapPool)
        ensures
            pool == SwapPool::blank(),
    {
        let zero = Pubkey::default();
        SwapPool {
            pool_number: 0,
            active_for_swap: false,
            open_for_investment: false,
            open_for_withdrawal: false,
            token_a_mint: zero,
            token_b_mint: zero,
            pool_share_token_a_mint: zero,
            pool_share_token_b_mint: zero,
            initial_amount_a: 0,
            initial_amount_b: 0,
            swap_fee_percentage: 0,
            swapverse_fee_percentage: 0,
            min_investment_amount: 0,
            max_days_to_fill: 0,
            swap_life_in_days: 0,
            created_at: 0,
            activated_at: 0,
            token_a_amount_to_be_distributed: 0,
            token_b_amount_to_be_distributed: 0,
            profit_of_token_a_amount_to_be_distributed: 0,
            profit_of_token_b_amount_to_be_distributed: 0,
        }
    }
}

impl SwapPool {
    /// The record with every field zero.
    pub open spec fn blank() -> SwapPool {
        SwapPool {
            pool_number: 0,
            active_for_swap: false,
            open_for_investment: false,
            open_for_withdrawal: false,
            token_a_mint: Pubkey::zero(),
            token_b_mint: Pubkey::zero(),
            pool_share_token_a_mint: Pubkey::zero(),
            pool_share_token_b_mint: Pubkey::zero(),
            initial_amount_a: 0,
            initial_amount_b: 0,
            swap_fee_percentage: 0,
            swapverse_fee_percentage: 0,
            min_investment_amount: 0,
            max_days_to_fill: 0,
            swap_life_in_days: 0,
            created_at: 0,
            activated_at: 0,
            token_a_amount_to_be_distributed: 0,
            token_b_amount_to_be_distributed: 0,
            profit_of_token_a_amount_to_be_distributed: 0,
            profit_of_token_b_amount_to_be_distributed: 0,
        }
    }

    /// The asset of one leg.
    pub open spec fn token_mint(&self, is_token_a: bool) -> Pubkey {
        if is_token_a {
            self.token_a_mint
        } else {
            self.token_b_mint
        }
    }

    /// The share token of one leg.
    pub open spec fn pool_share_token_mint(&self, is_token_a: bool) -> Pubkey {
        if is_token_a {
            self.pool_share_token_a_mint
        } else {
            self.pool_share_token_b_mint
        }
    }

    /// The funding target of one leg.
    pub open spec fn initial_amount(&self, is_token_a: bool) -> u64 {
        if is_token_a {
            self.initial_amount_a
        } else {
            self.initial_amount_b
        }
    }

    /// The principal total of one leg.
    pub open spec fn amount_to_be_distributed(&self, is_token_a: bool) -> u64 {
        if is_token_a {
            self.token_a_amount_to_be_distributed
        } else {
            self.token_b_amount_to_be_distributed
        }
    }

    /// The fees collected in the asset of one leg.
    pub open spec fn profit_to_be_distributed(&self, is_token_a: bool) -> u64 {
        if is_token_a {
            self.profit_of_token_a_amount_to_be_distributed
        } else {
            self.profit_of_token_b_amount_to_be_distributed
        }
    }

    /// The phase that the pool is in.
    pub open spec fn phase(&self) -> Phase {
        if self.open_for_withdrawal {
            Phase::Withdrawing
        } else if self.active_for_swap {
            Phase::Active
        } else {
            Phase::Investing
        }
    }

    /// Whether both legs have reached their targets.
    pub open spec fn fully_funded(&self) -> bool {
        &&& self.token_a_amount_to_be_distributed == self.initial_amount_a
        &&& self.token_b_amount_to_be_distributed == self.initial_amount_b
    }

    /// Whether the pool carries a time of activation.
    pub open spec fn ever_activated(&self) -> bool {
        self.activated_at != NOT_ACTIVATED
    }

    /// What shares of one leg are measured against when principal is paid
    /// back: the leg's target if the pool has been activated, and else the
    /// principal that is there to be paid back, so that every share is worth
    /// one unit.
    pub open spec fn withdrawal_basis(&self, is_token_a: bool) -> u64 {
        if self.ever_activated() {
            self.initial_amount(is_token_a)
        } else {
            self.amount_to_be_distributed(is_token_a)
        }
    }

    /// The principal of one leg that `shares` shares stand for.
    pub open spec fn principal_entitlement(&self, is_token_a: bool, shares: u64) -> int {
        pro_rata(
            self.amount_to_be_distributed(is_token_a) as int,
            shares as int,
            self.withdrawal_basis(is_token_a) as int,
        )
    }

    /// The protocol's cut of the fees collected in one asset.
    pub open spec fn swapverse_share(&self, is_token_a: bool) -> int {
        percentage_of(
            self.profit_to_be_distributed(is_token_a) as int,
            self.swapverse_fee_percentage as int,
        )
    }

    /// The fees collected in one asset that are left to the investors.
    pub open spec fn all_investors_share(&self, is_token_a: bool) -> int {
        self.profit_to_be_distributed(is_token_a) - self.swapverse_share(is_token_a)
    }

    /// The profit in one asset that `shares` shares of that leg stand for.
    pub open spec fn profit_entitlement(&self, is_token_a: bool, shares: u64) -> int {
        pro_rata(
            self.all_investors_share(is_token_a),
            shares as int,
            self.initial_amount(is_token_a) as int,
        )
    }

    /// What holds of every pool that the engine has created and worked on.
    pub open spec fn wf(&self) -> bool {
        // the two assets differ and are to be funded alike
        &&& self.token_a_mint != self.token_b_mint
        &&& self.initial_amount_a == self.initial_amount_b
        // the pool is in exactly one phase
        &&& self.open_for_investment ==> !self.active_for_swap && !self.open_for_withdrawal
        &&& !self.open_for_investment ==> self.active_for_swap || self.open_for_withdrawal
        // a pool that is still being funded has room left, unless it asks for nothing
        &&& self.open_for_investment && self.fully_funded() ==> self.initial_amount_a == 0
        // nothing of an activation shows before it has happened
        &&& !self.active_for_swap ==> {
            &&& self.activated_at == NOT_ACTIVATED
            &&& self.profit_of_token_a_amount_to_be_distributed == 0
            &&& self.profit_of_token_b_amount_to_be_distributed == 0
        }
        &&& self.active_for_swap ==> self.initial_amount_a > 0
        // deposits never exceed the targets, and an active pool has met them
        &&& !self.open_for_withdrawal ==> {
            &&& self.token_a_amount_to_be_distributed <= self.initial_amount_a
            &&& self.token_b_amount_to_be_distributed <= self.initial_amount_b
        }
        &&& self.active_for_swap && !self.open_for_withdrawal ==> self.fully_funded()
    }

    /// How a pool may look after any number of operations on `self`.
    ///
    /// Its terms are the same, its phase has not gone back, the time of
    /// activation has been written by the activation alone, and no total has
    /// gone down while it was growing.
    pub open spec fn evolves_into(&self, later: SwapPool) -> bool {
        &&& later.pool_number == self.pool_number
        &&& later.token_a_mint == self.token_a_mint
        &&& later.token_b_mint == self.token_b_mint
        &&& later.pool_share_token_a_mint == self.pool_share_token_a_mint
        &&& later.pool_share_token_b_mint == self.pool_share_token_b_mint
        &&& later.initial_amount_a == self.initial_amount_a
        &&& later.initial_amount_b == self.initial_amount_b
        &&& later.swap_fee_percentage == self.swap_fee_percentage
        &&& later.swapverse_fee_percentage == self.swapverse_fee_percentage
        &&& later.min_investment_amount == self.min_investment_amount
        &&& later.max_days_to_fill == self.max_days_to_fill
        &&& later.swap_life_in_days == self.swap_life_in_days
        &&& later.created_at == self.created_at
        &&& self.active_for_swap ==> later.active_for_swap
        &&& self.open_for_withdrawal ==> later.open_for_withdrawal
        &&& later.open_for_investment ==> self.open_for_investment
        &&& self.active_for_swap || !later.active_for_swap ==> later.activated_at
            == self.activated_at
        &&& self.profit_of_token_a_amount_to_be_distributed
            <= later.profit_of_token_a_amount_to_be_distributed
        &&& self.profit_of_token_b_amount_to_be_distributed
            <= later.profit_of_token_b_amount_to_be_distributed
        &&& !later.open_for_withdrawal ==> {
            &&& self.token_a_amount_to_be_distributed <= later.token_a_amount_to_be_distributed
            &&& self.token_b_amount_to_be_distributed <= later.token_b_amount_to_be_distributed
        }
        &&& self.open_for_withdrawal ==> {
            &&& later.token_a_amount_to_be_distributed == self.token_a_amount_to_be_distributed
            &&& later.token_b_amount_to_be_distributed == self.token_b_amount_to_be_distributed
        }
    }

    /// The pool as `initialize` sets it up: open for investment, with nothing
    /// deposited and nothing earned.
    pub open spec fn created(
        pool_number: u64,
        token_a_mint: Pubkey,
        token_b_mint: Pubkey,
        pool_share_token_a_mint: Pubkey,
        pool_share_token_b_mint: Pubkey,
        initial_amount_a: u64,
        initial_amount_b: u64,
        swap_fee_percentage: u8,
        swapverse_fee_percentage: u8,
        min_investment_amount: u64,
        max_days_to_fill: u8,
        swap_life_in_days: u64,
        created_at: i64,
    ) -> SwapPool {
        SwapPool {
            pool_number,
            active_for_swap: false,
            open_for_investment: true,
            open_for_withdrawal: false,
            token_a_mint,
            token_b_mint,
            pool_share_token_a_mint,
            pool_share_token_b_mint,
            initial_amount_a,
            initial_amount_b,
            swap_fee_percentage,
            swapverse_fee_percentage,
            min_investment_amount,
            max_days_to_fill,
            swap_life_in_days,
            created_at,
            activated_at: NOT_ACTIVATED,
            token_a_amount_to_be_distributed: 0,
            token_b_amount_to_be_distributed: 0,
            profit_of_token_a_amount_to_be_distributed: 0,
            profit_of_token_b_amount_to_be_distributed: 0,
        }
    }

    /// The pool once it has been activated at time `now`.
    pub open spec fn activated(self, now: i64) -> SwapPool {
        SwapPool { open_for_investment: false, active_for_swap: true, activated_at: now, ..self }
    }

    /// The pool after the activation check at time `now`: activated if both
    /// legs are funded, unchanged otherwise.
    pub open spec fn activated_if_funded(self, now: i64) -> SwapPool {
        if self.fully_funded() {
            self.activated(now)
        } else {
            self
        }
    }

    /// The pool with `amount` added to the principal of one leg.
    pub open spec fn credited(self, is_token_a: bool, amount: u64) -> SwapPool {
        let total = (self.amount_to_be_distributed(is_token_a) + amount) as u64;
        if is_token_a {
            SwapPool { token_a_amount_to_be_distributed: total, ..self }
        } else {
            SwapPool { token_b_amount_to_be_distributed: total, ..self }
        }
    }

    /// The pool with `amount` added to the fees collected in one asset.
    pub open spec fn with_fee(self, is_token_a: bool, amount: u64) -> SwapPool {
        let total = (self.profit_to_be_distributed(is_token_a) + amount) as u64;
        if is_token_a {
            SwapPool { profit_of_token_a_amount_to_be_distributed: total, ..self }
        } else {
            SwapPool { profit_of_token_b_amount_to_be_distributed: total, ..self }
        }
    }

    /// The time by which the pool must be funded.
    pub open spec fn fill_deadline(&self) -> int {
        self.created_at + self.max_days_to_fill * SECONDS_PER_DAY
    }

    /// The time at which an active pool ends.
    pub open spec fn end_of_life(&self) -> int {
        self.created_at + self.swap_life_in_days * SECONDS_PER_DAY
    }

    /// Whether at time `now` the pool's deadline has passed: the fill
    /// deadline if it has not been activated, the end of its life if it has.
    pub open spec fn withdrawal_due(&self, now: i64) -> bool {
        if self.active_for_swap {
            now > self.end_of_life()
        } else {
            now > self.fill_deadline()
        }
    }

    /// The pool once it has been opened for withdrawal, with the reserves
    /// of that moment as the principal to pay back.
    pub open spec fn opened_for_withdrawal(self, balance_a: u64, balance_b: u64) -> SwapPool {
        SwapPool {
            open_for_investment: false,
            open_for_withdrawal: true,
            token_a_amount_to_be_distributed: balance_a,
            token_b_amount_to_be_distributed: balance_b,
            ..self
        }
    }

    /// The pool after the withdrawal check at time `now`: opened if it was
    /// not open and its deadline has passed, unchanged otherwise.
    pub open spec fn after_withdrawal_check(self, now: i64, balance_a: u64, balance_b: u64)
        -> SwapPool {
        if !self.open_for_withdrawal && self.withdrawal_due(now) {
            self.opened_for_withdrawal(balance_a, balance_b)
        } else {
            self
        }
    }

    /// Whether the event can happen to the pool as it is.
    pub open spec fn accepts(&self, event: PoolEvent) -> bool {
        match event {
            PoolEvent::Deposit { is_token_a, amount, now } => {
                &&& self.open_for_investment
                &&& !self.fully_funded()
                &&& 0 < amount
                &&& self.amount_to_be_distributed(is_token_a) + amount <= self.initial_amount(
                    is_token_a,
                )
            },
            PoolEvent::SwapFee { is_token_a, amount } => {
                &&& self.active_for_swap
                &&& self.profit_to_be_distributed(is_token_a) + amount <= u64::MAX
            },
            PoolEvent::WithdrawalCheck { now, balance_a, balance_b } => true,
        }
    }

    /// The pool after the event.
    pub open spec fn after(self, event: PoolEvent) -> SwapPool {
        match event {
            PoolEvent::Deposit { is_token_a, amount, now } => self.credited(
                is_token_a,
                amount,
            ).activated_if_funded(now),
            PoolEvent::SwapFee { is_token_a, amount } => self.with_fee(is_token_a, amount),
            PoolEvent::WithdrawalCheck { now, balance_a, balance_b } => self.after_withdrawal_check(
                now,
                balance_a,
                balance_b,
            ),
        }
    }

    /// The pool after a sequence of events, of which those that it does not
    /// accept leave it as it is.
    pub open spec fn replay(self, events: Seq<PoolEvent>) -> SwapPool
        decreases events.len(),
    {
        if events.len() == 0 {
            self
        } else {
            let before = self.replay(events.drop_last());
            if before.accepts(events.last()) {
                before.after(events.last())
            } else {
                before
            }
        }
    }

    /// Whether the pool is well formed; for a caller that has the record
    /// from storage.
    pub fn check_wf(&self) -> (ok: bool)
        ensures
            ok == self.wf(),
    {
        let fully_funded = self.token_a_amount_to_be_distributed == self.initial_amount_a
            && self.token_b_amount_to_be_distributed == self.initial_amount_b;
        let phase_ok = if self.open_for_investment {
            !self.active_for_swap && !self.open_for_withdrawal && (!fully_funded
                || self.initial_amount_a == 0)
        } else {
            self.active_for_swap || self.open_for_withdrawal
        };
        let activation_ok = if self.active_for_swap {
            self.initial_amount_a > 0 && (self.open_for_withdrawal || fully_funded)
        } else {
            self.activated_at == NOT_ACTIVATED
                && self.profit_of_token_a_amount_to_be_distributed == 0
                && self.profit_of_token_b_amount_to_be_distributed == 0
        };
        let totals_ok = self.open_for_withdrawal || (self.token_a_amount_to_be_distributed
            <= self.initial_amount_a && self.token_b_amount_to_be_distributed
            <= self.initial_amount_b);
        self.token_a_mint != self.token_b_mint && self.initial_amount_a == self.initial_amount_b
            && phase_ok && activation_ok && totals_ok
    }

    /// The phase that the pool is in.
    pub fn current_phase(&self) -> (phase: Phase)
        ensures
            phase == self.phase(),
    {
        if self.open_for_withdrawal {
            Phase::Withdrawing
        } else if self.active_for_swap {
            Phase::Active
        } else {
            Phase::Investing
        }
    }

    /// Activates the pool at time `now` if both legs are funded.
    pub fn activate_if_funded(&mut self, now: i64)
        ensures
            *final(self) == old(self).activated_if_funded(now),
    {
        if (self.token_a_amount_to_be_distributed == self.initial_amount_a) && (
        self.token_b_amount_to_be_distributed == self.initial_amount_b) {
            self.open_for_investment = false;
            self.active_for_swap = true;
            self.activated_at = now;
        }
    }

    /// Sets up a new pool, open for investment, created at `created_at`.
    ///
    /// The pool is well formed if the two assets differ and the two targets
    /// are equal.
    pub fn initialize(
        &mut self,
        pool_number: u64,
        token_a_mint: Pubkey,
        token_b_mint: Pubkey,
        pool_share_token_a_mint: Pubkey,
        pool_share_token_b_mint: Pubkey,
        initial_amount_a: u64,
        initial_amount_b: u64,
        swap_fee_percentage: u8,
        swapverse_fee_percentage: u8,
        min_investment_amount: u64,
        max_days_to_fill: u8,
        swap_life_in_days: u64,
        created_at: i64,
    ) -> (result: Result<(), SwapverseError>)
        ensures
            result is Ok,
            *final(self) == SwapPool::created(
                pool_number,
                token_a_mint,
                token_b_mint,
                pool_share_token_a_mint,
                pool_share_token_b_mint,
                initial_amount_a,
                initial_amount_b,
                swap_fee_percentage,
                swapverse_fee_percentage,
                min_investment_amount,
                max_days_to_fill,
                swap_life_in_days,
                created_at,
            ),
            token_a_mint != token_b_mint && initial_amount_a == initial_amount_b
                ==> final(self).wf(),
    {
        self.pool_number = pool_number;
        self.active_for_swap = false;
        self.open_for_investment = true;
        self.open_for_withdrawal = false;

        self.token_a_mint = token_a_mint;
        self.token_b_mint = token_b_mint;
        self.pool_share_token_a_mint = pool_share_token_a_mint;
        self.pool_share_token_b_mint = pool_share_token_b_mint;

        self.initial_amount_a = initial_amount_a;
        self.initial_amount_b = initial_amount_b;

        self.swap_fee_percentage = swap_fee_percentage;
        self.swapverse_fee_percentage = swapverse_fee_percentage;

        self.min_investment_amount = min_investment_amount;
        self.max_days_to_fill = max_days_to_fill;
        self.swap_life_in_days = swap_life_in_days;

        self.created_at = created_at;
        self.activated_at = NOT_ACTIVATED;

        self.token_a_amount_to_be_distributed = 0;
        self.token_b_amount_to_be_distributed = 0;
        self.profit_of_token_a_amount_to_be_distributed = 0;
        self.profit_of_token_b_amount_to_be_distributed = 0;

        Ok(())
    }
}

/// Every event that a well-formed pool accepts leaves it well formed,
/// changes it only in the ways of `evolves_into`, and moves it to no phase
/// that its phase does not lead to.
pub proof fn lemma_event_keeps_pool_well_formed(pool: SwapPool, event: PoolEvent)
    requires
        pool.wf(),
        pool.accepts(event),
    ensures
        pool.after(event).wf(),
        pool.evolves_into(pool.after(event)),
        pool.phase().leads_to(pool.after(event).phase()),
{
}

/// A pool evolves into itself, and evolving is transitive.
pub proof fn lemma_evolution_composes(first: SwapPool, second: SwapPool, third: SwapPool)
    requires
        first.evolves_into(second),
        second.evolves_into(third),
    ensures
        first.evolves_into(first),
        first.evolves_into(third),
{
}

/// Whatever sequence of events a well-formed pool goes through, it stays
/// well formed and its phase does not go back. In particular, until it opens
/// for withdrawal the principal of each leg stays within its target.
pub proof fn lemma_distribution_stays_within_target(pool: SwapPool, events: Seq<PoolEvent>)
    requires
        pool.wf(),
    ensures
        pool.replay(events).wf(),
        pool.evolves_into(pool.replay(events)),
        pool.phase().leads_to(pool.replay(events).phase()),
        !pool.replay(events).open_for_withdrawal ==> {
            &&& pool.replay(events).token_a_amount_to_be_distributed
                <= pool.replay(events).initial_amount_a
            &&& pool.replay(events).token_b_amount_to_be_distributed
                <= pool.replay(events).initial_amount_b
        },
    decreases events.len(),
{
    if events.len() > 0 {
        let before = pool.replay(events.drop_last());
        lemma_distribution_stays_within_target(pool, events.drop_last());
        if before.accepts(events.last()) {
            lemma_event_keeps_pool_well_formed(before, events.last());
            lemma_evolution_composes(pool, before, before.after(events.last()));
        }
    }
}

/// A pool is activated at most once: if it is active after some events,
/// then whatever events follow, it stays active and keeps the time of
/// activation that it had.
pub proof fn lemma_activation_happens_once(
    pool: SwapPool,
    events: Seq<PoolEvent>,
    more: Seq<PoolEvent>,
)
    requires
        pool.wf(),
        pool.replay(events).active_for_swap,
    ensures
        pool.replay(events + more).active_for_swap,
        pool.replay(events + more).activated_at == pool.replay(events).activated_at,
{
    lemma_distribution_stays_within_target(pool, events);
    lemma_replay_in_parts(pool, events, more);
    lemma_distribution_stays_within_target(pool.replay(events), more);
}

/// Going through one sequence of events and then another is going through
/// both in a row.
pub proof fn lemma_replay_in_parts(pool: SwapPool, first: Seq<PoolEvent>, second: Seq<PoolEvent>)
    ensures
        pool.replay(first + second) == pool.replay(first).replay(second),
    decreases second.len(),
{
    if second.len() == 0 {
        assert(first + second =~= first);
    } else {
        assert((first + second).drop_last() =~= first + second.drop_last());
        lemma_replay_in_parts(pool, first, second.drop_last());
    }
}

/// The withdrawal check does nothing to a pool that is open for withdrawal,
/// so checking twice is checking once.
pub proof fn lemma_withdrawal_check_is_idempotent(
    pool: SwapPool,
    now: i64,
    balance_a: u64,
    balance_b: u64,
    later: i64,
    later_balance_a: u64,
    later_balance_b: u64,
)
    ensures
        pool.open_for_withdrawal ==> pool.after_withdrawal_check(now, balance_a, balance_b)
            == pool,
        pool.after_withdrawal_check(now, balance_a, balance_b).open_for_withdrawal
            ==> pool.after_withdrawal_check(now, balance_a, balance_b).after_withdrawal_check(
            later,
            later_balance_a,
            later_balance_b,
        ) == pool.after_withdrawal_check(now, balance_a, balance_b),
{
}

} // verus!
