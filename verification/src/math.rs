//! Arithmetic facts about flooring division.
//!
//! Payouts and liabilities are weighted sums of the form `floor(s * n / d)`.
//! The solvency arguments all come down to two facts about flooring: it is
//! monotone in the dividend, and it is superadditive (splitting a dividend in
//! two never increases the total quotient).

use vstd::prelude::*;
use vstd::arithmetic::div_mod::lemma_div_by_multiple;
use vstd::arithmetic::div_mod::lemma_div_is_ordered;
use vstd::arithmetic::div_mod::lemma_fundamental_div_mod;
use vstd::arithmetic::div_mod::lemma_mod_bound;
use vstd::arithmetic::mul::lemma_mul_is_distributive_add;

verus! {

/// Flooring division is superadditive: dividing two parts separately never
/// yields more than dividing their sum.
pub proof fn lemma_div_superadditive(a: int, b: int, d: int)
    requires
        0 <= a,
        0 <= b,
        0 < d,
    ensures
        a / d + b / d <= (a + b) / d,
{
    let q = a / d + b / d;
    lemma_fundamental_div_mod(a, d);
    lemma_fundamental_div_mod(b, d);
    lemma_mod_bound(a, d);
    lemma_mod_bound(b, d);
    assert(d * q == d * (a / d) + d * (b / d)) by {
        lemma_mul_is_distributive_add(d, a / d, b / d);
    }
    assert(d * q <= a + b);
    lemma_div_is_ordered(d * q, a + b, d);
    lemma_div_by_multiple(q, d);
    assert((q * d) == (d * q)) by {
        vstd::arithmetic::mul::lemma_mul_is_commutative(q, d);
    }
}

/// Flooring division is monotone in the dividend.
pub proof fn lemma_div_monotone(a: int, b: int, d: int)
    requires
        0 <= a <= b,
        0 < d,
    ensures
        a / d <= b / d,
{
    lemma_div_is_ordered(a, b, d);
}

} // verus!
