//! The Miller-Rabin probabilistic primality test.

use vstd::arithmetic::power2::pow2;
use vstd::arithmetic::power::pow;
use vstd::prelude::*;

use crate::arith::{lemma_odd_part_quotient, odd_part, two_adic_val};
use crate::bigint::{
    big_eq, big_from_u64, big_is_even, big_le, big_modpow, big_shr, big_sub, big_trailing_zeros,
    big_value, random_bits, random_in_range,
};

verus! {

/// `x` squared `j` times, modulo `n`.
pub open spec fn square_chain(x: nat, n: nat, j: nat) -> nat
    decreases j,
{
    if j == 0 {
        x
    } else {
        (pow(square_chain(x, n, (j - 1) as nat) as int, 2) % (n as int)) as nat
    }
}

/// One Miller-Rabin round on `n` with witness `a` finds no evidence that
/// `n` is composite: writing `n - 1 = 2^r * s` with `s` odd and
/// `x = a^s mod n`, either `x` is `1` or `n - 1`, or squaring `x`
/// between one and `r - 1` times reaches `n - 1`.
pub open spec fn passes_round(n: nat, a: nat) -> bool {
    let r = two_adic_val((n - 1) as nat);
    let s = odd_part((n - 1) as nat);
    let x = (pow(a as int, s) % (n as int)) as nat;
    x == 1 || x == n - 1 || exists|j: nat| 1 <= j < r && #[trigger] square_chain(x, n, j) == n - 1
}

/// `n` passes the test with the given witnesses: it is at most three,
/// or every witness passes its round.
pub open spec fn passes_witnesses(n: nat, witnesses: Seq<nat>) -> bool {
    n <= 3 || forall|i: int| 0 <= i < witnesses.len() ==> passes_round(n, #[trigger] witnesses[i])
}

/// `n` can pass the test with `rounds` witnesses drawn from `[2, n - 1)`.
pub open spec fn passes_tester(n: nat, rounds: nat) -> bool {
    n <= 3 || exists|w: Seq<nat>|
        w.len() == rounds && (forall|i: int| 0 <= i < w.len() ==> 2 <= #[trigger] w[i] < n - 1)
            && passes_witnesses(n, w)
}

/// The values that a sequence of big integers denotes.
pub open spec fn values_of(v: Seq<num::BigUint>) -> Seq<nat> {
    v.map_values(|b: num::BigUint| big_value(b))
}

proof fn lemma_chain_stays_one(x: nat, n: nat, j: nat, k: nat)
    requires
        n > 1,
        square_chain(x, n, j) == 1,
        j <= k,
    ensures
        square_chain(x, n, k) == 1,
    decreases k - j,
{
    if k > j {
        lemma_chain_stays_one(x, n, j, (k - 1) as nat);
        vstd::arithmetic::power::lemma_square_is_pow2(1);
        assert(square_chain(x, n, k) == (pow(1, 2) % (n as int)) as nat);
        vstd::arithmetic::div_mod::lemma_small_mod(1, n);
    }
}

/// One round of the test on `n`, given `n - 1 = 2^r * s` with `s` odd.
fn round_passes(
    n: &num::BigUint,
    n_minus_one: &num::BigUint,
    s: &num::BigUint,
    r: u64,
    a: &num::BigUint,
) -> (b: bool)
    requires
        big_value(*n) > 3,
        big_value(*n_minus_one) == big_value(*n) - 1,
        big_value(*s) == odd_part((big_value(*n) - 1) as nat),
        r == two_adic_val((big_value(*n) - 1) as nat),
    ensures
        b == passes_round(big_value(*n), big_value(*a)),
{
    let ghost nv = big_value(*n);
    let one = big_from_u64(1);
    let two = big_from_u64(2);
    let mut x = big_modpow(a, s, n);
    let ghost x0 = big_value(x);
    if big_eq(&x, &one) || big_eq(&x, n_minus_one) {
        return true;
    }
    let mut j: u64 = 1;
    while j < r
        invariant
            1 <= j,
            r >= 1 ==> j <= r,
            nv == big_value(*n),
            nv > 3,
            r == two_adic_val((nv - 1) as nat),
            big_value(*n_minus_one) == nv - 1,
            big_value(one) == 1,
            big_value(two) == 2,
            x0 == (pow(big_value(*a) as int, odd_part((nv - 1) as nat)) % (nv as int)) as nat,
            big_value(x) == square_chain(x0, nv, (j - 1) as nat),
            x0 != 1,
            x0 != nv - 1,
            forall|k: nat| 1 <= k < j ==> #[trigger] square_chain(x0, nv, k) != nv - 1,
        decreases r - j,
    {
        x = big_modpow(&x, &two, n);
        if big_eq(&x, &one) {
            proof {
                assert forall|k: nat| 1 <= k < r implies #[trigger] square_chain(x0, nv, k) != nv
                    - 1 by {
                    if k >= j {
                        lemma_chain_stays_one(x0, nv, j as nat, k);
                    }
                }
            }
            return false;
        }
        if big_eq(&x, n_minus_one) {
            assert(square_chain(x0, nv, j as nat) == nv - 1);
            return true;
        }
        j = j + 1;
    }
    false
}

/// The test on `n` with the given witnesses: true when `n <= 3`, else
/// true exactly when every witness passes its round.
pub fn miller_rabin_with(n: &num::BigUint, witnesses: &Vec<num::BigUint>) -> (r: bool)
    ensures
        r == passes_witnesses(big_value(*n), values_of(witnesses@)),
{
    let three = big_from_u64(3);
    if big_le(n, &three) {
        return true;
    }
    let one = big_from_u64(1);
    let n_minus_one = big_sub(n, &one);
    let tz = big_trailing_zeros(&n_minus_one);
    let r: u64 = match tz {
        Some(t) => t,
        None => 0,
    };
    let s = big_shr(&n_minus_one, r);
    proof {
        lemma_odd_part_quotient((big_value(*n) - 1) as nat);
    }
    let mut i: usize = 0;
    while i < witnesses.len()
        invariant
            i <= witnesses@.len(),
            big_value(*n) > 3,
            big_value(n_minus_one) == big_value(*n) - 1,
            big_value(s) == odd_part((big_value(*n) - 1) as nat),
            r == two_adic_val((big_value(*n) - 1) as nat),
            forall|k: int| 0 <= k < i ==> passes_round(big_value(*n), #[trigger] values_of(witnesses@)[k]),
        decreases witnesses@.len() - i,
    {
        if !round_passes(n, &n_minus_one, &s, r, &witnesses[i]) {
            assert(values_of(witnesses@)[i as int] == big_value(witnesses@[i as int]));
            return false;
        }
        i = i + 1;
    }
    true
}

/// Draws `rounds` witnesses uniformly from `[2, n - 1)`.
fn draw_witnesses(rng: &mut rand::rngs::StdRng, n: &num::BigUint, rounds: u32) -> (w: Vec<
    num::BigUint,
>)
    requires
        big_value(*n) > 3,
    ensures
        w@.len() == rounds,
        forall|i: int|
            0 <= i < w@.len() ==> 2 <= #[trigger] values_of(w@)[i] < big_value(*n) - 1,
{
    let one = big_from_u64(1);
    let two = big_from_u64(2);
    let n_minus_one = big_sub(n, &one);
    let mut w: Vec<num::BigUint> = Vec::new();
    let mut i: u32 = 0;
    while i < rounds
        invariant
            i <= rounds,
            w@.len() == i,
            big_value(two) == 2,
            big_value(n_minus_one) == big_value(*n) - 1,
            big_value(*n) > 3,
            forall|k: int| 0 <= k < w@.len() ==> 2 <= #[trigger] big_value(w@[k]) < big_value(*n) - 1,
        decreases rounds - i,
    {
        let a = random_in_range(rng, &two, &n_minus_one);
        w.push(a);
        i = i + 1;
    }
    proof {
        assert forall|k: int| 0 <= k < w@.len() implies 2 <= #[trigger] values_of(w@)[k] < big_value(*n) - 1 by {
            assert(values_of(w@)[k] == big_value(w@[k]));
        }
    }
    w
}

/// The Miller-Rabin test on `n` with `k` rounds, each with a witness drawn
/// uniformly from `[2, n - 1)`. Values up to three pass without a draw.
/// `true` means that `n` passed with `k` such witnesses; `false` that a
/// witness proved `n` composite.
pub fn miller_rabin(n: &num::BigUint, k: u32, rng: &mut rand::rngs::StdRng) -> (r: bool)
    ensures
        big_value(*n) <= 3 ==> r && *final(rng) == *old(rng),
        r ==> passes_tester(big_value(*n), k as nat),
        !r ==> big_value(*n) > 3 && exists|a: nat|
            2 <= a < big_value(*n) - 1 && !#[trigger] passes_round(big_value(*n), a),
{
    let three = big_from_u64(3);
    if big_le(n, &three) {
        return true;
    }
    let witnesses = draw_witnesses(rng, n, k);
    let r = miller_rabin_with(n, &witnesses);
    proof {
        let nv = big_value(*n);
        let w = values_of(witnesses@);
        if r {
            assert(w.len() == k as nat && (forall|i: int| 0 <= i < w.len() ==> 2 <= #[trigger] w[i] < nv - 1)
                && passes_witnesses(nv, w));
        } else {
            let i = choose|i: int| 0 <= i < w.len() && !passes_round(nv, #[trigger] w[i]);
            assert(2 <= w[i] < nv - 1);
        }
    }
    r
}

/// Searches for a probable prime of at most `bits` bits: draws uniform
/// candidates, skips the even ones, and returns the first that passes the
/// test with `certainty` rounds. Gives up with `None` after `attempts`
/// candidates.
pub fn generate_possible_prime(
    rng: &mut rand::rngs::StdRng,
    bits: usize,
    certainty: u32,
    attempts: u64,
) -> (r: Option<num::BigUint>)
    ensures
        r matches Some(p) ==> big_value(p) < pow2(bits as nat) && big_value(p) % 2 == 1
            && passes_tester(big_value(p), certainty as nat),
        attempts == 0 ==> r is None,
{
    let mut i: u64 = 0;
    while i < attempts
        invariant
            i <= attempts,
        decreases attempts - i,
    {
        let candidate = random_bits(rng, bits);
        if !big_is_even(&candidate) && miller_rabin(&candidate, certainty, rng) {
            return Some(candidate);
        }
        i = i + 1;
    }
    None
}

} // verus!
