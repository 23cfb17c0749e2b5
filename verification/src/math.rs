//! The two formulas behind every amount that the engine decides: a share of
//! a total in proportion to a holding, and a percentage of an amount. Both
//! round down.

use vstd::arithmetic::div_mod::{
    lemma_div_is_ordered,
    lemma_div_multiples_vanish,
    lemma_div_pos_is_pos,
    lemma_fundamental_div_mod,
    lemma_mod_bound,
};
use vstd::arithmetic::mul::{lemma_mul_inequality, lemma_mul_is_commutative, lemma_mul_nonnegative};
use vstd::prelude::*;

verus! {

/// `total * share / basis`, rounded down: the part of `total` that falls to
/// a holder of `share` out of `basis`.
pub open spec fn pro_rata(total: int, share: int, basis: int) -> int {
    total * share / basis
}

/// `percentage` hundredths of `amount`, rounded down.
pub open spec fn percentage_of(amount: int, percentage: int) -> int {
    amount * percentage / 100
}

/// The product of two 64-bit amounts fits in 128 bits.
pub proof fn lemma_product_fits(a: u64, b: u64)
    ensures
        0 <= a * b <= u128::MAX,
{
    assert(0 <= a * b <= 0xffff_ffff_ffff_ffff * 0xffff_ffff_ffff_ffff) by (nonlinear_arith)
        requires
            0 <= a <= 0xffff_ffff_ffff_ffff,
            0 <= b <= 0xffff_ffff_ffff_ffff,
    ;
}

/// A share is never negative, and a holder of no more than the basis gets no
/// more than the total.
pub proof fn lemma_pro_rata_bounds(total: int, share: int, basis: int)
    requires
        0 <= total,
        0 <= share,
        0 < basis,
    ensures
        0 <= pro_rata(total, share, basis),
        share <= basis ==> pro_rata(total, share, basis) <= total,
        share == basis ==> pro_rata(total, share, basis) == total,
{
    lemma_mul_nonnegative(total, share);
    lemma_div_pos_is_pos(total * share, basis);
    if share <= basis {
        lemma_mul_is_commutative(total, share);
        lemma_mul_is_commutative(total, basis);
        lemma_mul_inequality(share, basis, total);
        lemma_div_is_ordered(total * share, total * basis, basis);
        lemma_mul_is_commutative(basis, total);
        lemma_div_multiples_vanish(total, basis);
    }
}

/// The product of a divisor and its quotient misses the dividend by less
/// than the divisor, and by nothing if the division is exact.
pub proof fn lemma_quotient_times_divisor(dividend: int, divisor: int)
    requires
        0 <= dividend,
        0 < divisor,
    ensures
        dividend - divisor < divisor * (dividend / divisor) <= dividend,
        dividend % divisor == 0 ==> divisor * (dividend / divisor) == dividend,
{
    lemma_fundamental_div_mod(dividend, divisor);
    lemma_mod_bound(dividend, divisor);
}

/// The product of two amounts, in 128 bits.
pub fn product(a: u64, b: u64) -> (p: u128)
    ensures
        p == a * b,
{
    proof {
        lemma_product_fits(a, b);
    }
    (a as u128) * (b as u128)
}

/// `a * b / divisor`, rounded down, in 128 bits.
pub fn mul_div(a: u64, b: u64, divisor: u64) -> (q: u128)
    requires
        divisor > 0,
    ensures
        q == pro_rata(a as int, b as int, divisor as int),
{
    product(a, b) / (divisor as u128)
}

} // verus!
