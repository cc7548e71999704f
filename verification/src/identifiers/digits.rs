//! Fixed-width positional notation: the digits of a number in a base, most
//! significant first, and how the order of numbers carries over to their digits.

use vstd::arithmetic::div_mod::{
    lemma_div_denominator, lemma_div_is_ordered, lemma_fundamental_div_mod, lemma_mod_pos_bound,
};
use vstd::prelude::*;

verus! {

/// `base` raised to the power `n`.
pub open spec fn power(base: nat, n: nat) -> nat
    decreases n,
{
    if n == 0 {
        1
    } else {
        base * power(base, (n - 1) as nat)
    }
}

/// The number written by the first `i + 1` digits of the `width`-digit
/// representation of `value` in `base`.
pub open spec fn prefix(value: nat, base: nat, width: nat, i: int) -> nat {
    value / power(base, (width - 1 - i) as nat)
}

/// The digit at position `i` (0 is the most significant) of the `width`-digit
/// representation of `value` in `base`.
pub open spec fn digit(value: nat, base: nat, width: nat, i: int) -> nat {
    prefix(value, base, width, i) % base
}

pub proof fn lemma_power_positive(base: nat, n: nat)
    requires
        base > 0,
    ensures
        power(base, n) > 0,
    decreases n,
{
    if n > 0 {
        lemma_power_positive(base, (n - 1) as nat);
        assert(base * power(base, (n - 1) as nat) > 0) by (nonlinear_arith)
            requires
                base > 0,
                power(base, (n - 1) as nat) > 0,
        ;
    }
}

/// Every digit is smaller than the base.
pub proof fn lemma_digit_bound(value: nat, base: nat, width: nat, i: int)
    requires
        base > 0,
    ensures
        digit(value, base, width, i) < base,
{
    lemma_mod_pos_bound(prefix(value, base, width, i) as int, base as int);
}

/// Each prefix is the one before it followed by one more digit.
pub proof fn lemma_prefix_step(value: nat, base: nat, width: nat, i: int)
    requires
        base > 0,
        0 < i < width,
    ensures
        prefix(value, base, width, i - 1) == prefix(value, base, width, i) / base,
        prefix(value, base, width, i) == base * prefix(value, base, width, i - 1) + digit(
            value,
            base,
            width,
            i,
        ),
{
    let n = (width - 1 - i) as nat;
    lemma_power_positive(base, n);
    assert(power(base, (width - 1 - (i - 1)) as nat) == base * power(base, n));
    lemma_div_denominator(value as int, power(base, n) as int, base as int);
    assert(power(base, n) * base == base * power(base, n)) by (nonlinear_arith);
    lemma_fundamental_div_mod(prefix(value, base, width, i) as int, base as int);
}

/// The last prefix is the value itself.
pub proof fn lemma_last_prefix(value: nat, base: nat, width: nat)
    requires
        width > 0,
    ensures
        prefix(value, base, width, width - 1) == value,
{
    assert(power(base, 0) == 1);
    assert(value / 1 == value) by (nonlinear_arith);
}

/// Below `base^width`, the first prefix is a single digit.
pub proof fn lemma_first_prefix(value: nat, base: nat, width: nat)
    requires
        base > 0,
        width > 0,
        value < power(base, width),
    ensures
        prefix(value, base, width, 0) < base,
        digit(value, base, width, 0) == prefix(value, base, width, 0),
{
    let p = power(base, (width - 1) as nat);
    lemma_power_positive(base, (width - 1) as nat);
    assert(power(base, width) == base * p);
    assert(value / p < base) by (nonlinear_arith)
        requires
            value < base * p,
            p > 0,
    ;
    lemma_fundamental_div_mod(prefix(value, base, width, 0) as int, base as int);
    vstd::arithmetic::div_mod::lemma_small_mod(prefix(value, base, width, 0), base);
}

/// Equal prefixes have equal shorter prefixes.
pub proof fn lemma_prefix_equal_below(a: nat, b: nat, base: nat, width: nat, i: int)
    requires
        base > 0,
        0 <= i < width,
        prefix(a, base, width, i) == prefix(b, base, width, i),
    ensures
        forall|j: int| 0 <= j <= i ==> prefix(a, base, width, j) == prefix(b, base, width, j),
    decreases i,
{
    if i > 0 {
        lemma_prefix_step(a, base, width, i);
        lemma_prefix_step(b, base, width, i);
        lemma_prefix_equal_below(a, b, base, width, i - 1);
    }
}

proof fn lemma_prefix_ordered(a: nat, b: nat, base: nat, width: nat, i: int)
    requires
        a <= b,
        base > 0,
        0 <= i < width,
    ensures
        prefix(a, base, width, i) <= prefix(b, base, width, i),
{
    lemma_power_positive(base, (width - 1 - i) as nat);
    lemma_div_is_ordered(a as int, b as int, power(base, (width - 1 - i) as nat) as int);
}

proof fn lemma_first_difference(a: nat, b: nat, base: nat, width: nat, i: int) -> (k: int)
    requires
        a < b,
        base > 0,
        0 <= i < width,
        prefix(a, base, width, i) < prefix(b, base, width, i),
    ensures
        0 <= k <= i,
        prefix(a, base, width, k) < prefix(b, base, width, k),
        k == 0 || prefix(a, base, width, k - 1) == prefix(b, base, width, k - 1),
    decreases i,
{
    if i == 0 {
        0
    } else {
        lemma_prefix_ordered(a, b, base, width, i - 1);
        if prefix(a, base, width, i - 1) < prefix(b, base, width, i - 1) {
            lemma_first_difference(a, b, base, width, i - 1)
        } else {
            i
        }
    }
}

/// Of two numbers below `base^width`, the smaller has the smaller digit at
/// the first position where their digits differ.
pub proof fn lemma_digits_order(a: nat, b: nat, base: nat, width: nat) -> (k: int)
    requires
        a < b < power(base, width),
        base > 0,
        width > 0,
    ensures
        0 <= k < width,
        digit(a, base, width, k) < digit(b, base, width, k),
        forall|j: int| 0 <= j < k ==> digit(a, base, width, j) == digit(b, base, width, j),
{
    lemma_last_prefix(a, base, width);
    lemma_last_prefix(b, base, width);
    let k = lemma_first_difference(a, b, base, width, width - 1);
    if k == 0 {
        lemma_first_prefix(a, base, width);
        lemma_first_prefix(b, base, width);
    } else {
        lemma_prefix_step(a, base, width, k);
        lemma_prefix_step(b, base, width, k);
        lemma_digit_bound(a, base, width, k);
        lemma_digit_bound(b, base, width, k);
        lemma_prefix_equal_below(a, b, base, width, k - 1);
    }
    k
}

} // verus!
