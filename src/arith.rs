//! Mathematical definitions of the number theory that the key
//! generation relies on.

use vstd::arithmetic::div_mod::lemma_div_denominator;
use vstd::arithmetic::power2::{lemma_pow2_pos, lemma_pow2_unfold, pow2};
use vstd::arithmetic::power::lemma_pow0;
use vstd::prelude::*;

verus! {

/// Greatest common divisor, by Euclid's algorithm.
pub open spec fn gcd(a: nat, b: nat) -> nat
    decreases b,
{
    if b == 0 {
        a
    } else {
        gcd(b, a % b)
    }
}

/// Least common multiple; zero when both arguments are zero.
pub open spec fn lcm(a: nat, b: nat) -> nat {
    if gcd(a, b) == 0 {
        0
    } else {
        a * b / gcd(a, b)
    }
}

/// Number of times two divides `m` (zero for `m == 0`).
pub open spec fn two_adic_val(m: nat) -> nat
    decreases m,
{
    if m > 0 && m % 2 == 0 {
        1 + two_adic_val(m / 2)
    } else {
        0
    }
}

/// What is left of `m` once every factor two is divided out.
pub open spec fn odd_part(m: nat) -> nat
    decreases m,
{
    if m > 0 && m % 2 == 0 {
        odd_part(m / 2)
    } else {
        m
    }
}

/// Dividing out the largest power of two that divides `m` leaves its odd
/// part.
pub proof fn lemma_odd_part_quotient(m: nat)
    ensures
        m / pow2(two_adic_val(m)) == odd_part(m),
    decreases m,
{
    if m > 0 && m % 2 == 0 {
        let t = two_adic_val(m / 2);
        lemma_odd_part_quotient(m / 2);
        lemma_pow2_unfold(t + 1);
        lemma_pow2_pos(t);
        lemma_div_denominator(m as int, 2, pow2(t) as int);
        assert(m / pow2(two_adic_val(m)) == (m / 2) / pow2(t));
    } else {
        lemma_pow0(2);
        assert(pow2(0) == 1);
        assert(m / 1 == m);
    }
}

} // verus!
