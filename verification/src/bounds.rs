use vstd::prelude::*;
use vstd::arithmetic::div_mod::{lemma_div_is_ordered, lemma_div_multiples_vanish_quotient};

verus! {

/// The product of two numbers that lie between zero and a bound each lies
/// between zero and the product of the bounds.
pub proof fn lemma_product_within(a: int, b: int, a_max: int, b_max: int)
    requires
        0 <= a <= a_max,
        0 <= b <= b_max,
    ensures
        0 <= a * b <= a_max * b_max,
{
    assert(0 <= a * b <= a_max * b_max) by (nonlinear_arith)
        requires
            0 <= a <= a_max,
            0 <= b <= b_max,
    ;
}

/// A product of two positive numbers is positive.
pub proof fn lemma_product_positive(a: int, b: int)
    requires
        a > 0,
        b > 0,
    ensures
        a * b > 0,
{
    assert(a * b > 0) by (nonlinear_arith)
        requires
            a > 0,
            b > 0,
    ;
}

/// A product of two numbers that are not negative is zero exactly where one
/// of them is.
pub proof fn lemma_product_zero(a: int, b: int)
    requires
        a >= 0,
        b >= 0,
    ensures
        a * b == 0 <==> a == 0 || b == 0,
{
    assert(a * b == 0 <==> a == 0 || b == 0) by (nonlinear_arith)
        requires
            a >= 0,
            b >= 0,
    ;
}

/// A part of a whole, taken in the proportion of `part` to `part + rest` and
/// divided by `divisor`, is at most the whole divided by `divisor`.
pub proof fn lemma_share_within(whole: int, part: int, rest: int, divisor: int)
    requires
        whole >= 0,
        part >= 0,
        rest >= 0,
        part + rest > 0,
        divisor > 0,
    ensures
        0 <= (whole * part) / (divisor * (part + rest)) <= whole / divisor,
{
    let all = part + rest;
    assert(0 <= whole * part <= whole * all) by (nonlinear_arith)
        requires
            whole >= 0,
            0 <= part <= all,
    ;
    assert(divisor * all > 0) by (nonlinear_arith)
        requires
            divisor > 0,
            all > 0,
    ;
    lemma_div_is_ordered(0, whole * part, divisor * all);
    lemma_div_is_ordered(whole * part, whole * all, divisor * all);
    lemma_div_multiples_vanish_quotient(all, whole, divisor);
    assert(all * whole == whole * all && all * divisor == divisor * all) by (nonlinear_arith);
}

} // verus!
