//! Paillier keys and their derivation from two probable primes.

use vstd::arithmetic::power2::pow2;
use vstd::arithmetic::power::pow;
use vstd::prelude::*;

use crate::arith::{gcd, lcm};
use crate::bigint::{
    big_div, big_eq, big_from_u64, big_gcd, big_lcm, big_modinv, big_modpow, big_mul,
    big_sub, big_value, random_bits,
};

verus! {

/// The public half of a key pair.
#[derive(Clone, Debug, PartialEq, Eq)]
pub struct PublicKey {
    /// Bit length that each prime factor was drawn with.
    pub bits: usize,
    /// The modulus, product of the two primes.
    pub n: num::BigUint,
    /// `n * n`.
    pub n_squared: num::BigUint,
    /// The generator.
    pub g: num::BigUint,
}

/// The private half of a key pair.
#[derive(Clone, Debug, PartialEq, Eq)]
pub struct PrivateKey {
    /// `lcm(p - 1, q - 1)`.
    pub lambda: num::BigUint,
    /// The inverse of `L(g^lambda mod n^2)` modulo `n`.
    pub denominator: num::BigUint,
}

/// A public key and the private key made with it.
#[derive(Clone, Debug, PartialEq, Eq)]
pub struct KeyPair {
    pub public_key: PublicKey,
    pub private_key: PrivateKey,
}

/// Why a key pair could not be generated.
#[derive(Clone, Copy, Debug, PartialEq, Eq, Structural)]
pub enum KeyGenError {
    /// The operating system's random source could not seed the generator.
    RandomSourceUnavailable,
    /// No probable prime was found within the allowed number of candidates.
    PrimeSearchExhausted,
    /// No admissible generator was found within the allowed number of
    /// candidates.
    GeneratorSearchExhausted,
}

/// `L(u) = (u - 1) / n`; `L(0)` is taken as zero, the quotient of `-1` by
/// `n > 1` truncated toward zero.
pub open spec fn l_function(u: nat, n: nat) -> nat {
    if u == 0 {
        0
    } else {
        ((u - 1) as nat) / n
    }
}

/// `L(g^lambda mod n^2)`, the value that must be invertible modulo `n`.
pub open spec fn generator_helper(g: nat, lambda: nat, n: nat) -> nat {
    l_function((pow(g as int, lambda) % ((n * n) as int)) as nat, n)
}

/// `kp` is a key pair derived from the primes `p` and `q` with key size
/// `bits`: `n = p * q`, `n_squared = n * n`, `lambda = lcm(p - 1, q - 1)`,
/// `L(g^lambda mod n^2)` is coprime to `n`, and the denominator is its
/// inverse modulo `n`.
pub open spec fn derived_from(kp: KeyPair, p: nat, q: nat, bits: usize) -> bool {
    let n = p * q;
    let lambda = big_value(kp.private_key.lambda);
    let helper = generator_helper(big_value(kp.public_key.g), lambda, n);
    let mu = big_value(kp.private_key.denominator);
    &&& kp.public_key.bits == bits
    &&& big_value(kp.public_key.n) == n
    &&& big_value(kp.public_key.n_squared) == n * n
    &&& lambda == lcm((p - 1) as nat, (q - 1) as nat)
    &&& gcd(helper, n) == 1
    &&& mu < n
    &&& (mu * helper) % n == 1nat % n
}

/// `L(u)` for modulus `n`.
pub fn calculate_l(u: &num::BigUint, n: &num::BigUint) -> (r: num::BigUint)
    requires
        big_value(*n) != 0,
    ensures
        big_value(r) == l_function(big_value(*u), big_value(*n)),
{
    let zero = big_from_u64(0);
    if big_eq(u, &zero) {
        return zero;
    }
    let one = big_from_u64(1);
    let r = big_sub(u, &one);
    big_div(&r, n)
}

/// The denominator that generator `g` gives, when `g` is admissible:
/// `Some` exactly when `L(g^lambda mod n^2)` is coprime to `n`, holding
/// its inverse modulo `n`.
pub fn admissible_denominator(
    n: &num::BigUint,
    n_squared: &num::BigUint,
    lambda: &num::BigUint,
    g: &num::BigUint,
) -> (r: Option<num::BigUint>)
    requires
        big_value(*n) != 0,
        big_value(*n_squared) == big_value(*n) * big_value(*n),
    ensures
        r is Some <==> gcd(generator_helper(big_value(*g), big_value(*lambda), big_value(*n)), big_value(*n)) == 1,
        r matches Some(mu) ==> {
            let helper = generator_helper(big_value(*g), big_value(*lambda), big_value(*n));
            big_value(mu) < big_value(*n) && (big_value(mu) * helper) % big_value(*n) == 1nat % big_value(*n)
        },
{
    proof {
        vstd::arithmetic::mul::lemma_mul_nonzero(big_value(*n) as int, big_value(*n) as int);
    }
    let power = big_modpow(g, lambda, n_squared);
    let helper = calculate_l(&power, n);
    let one = big_from_u64(1);
    let divisor = big_gcd(&helper, n);
    if !big_eq(&divisor, &one) {
        return None;
    }
    big_modinv(&helper, n)
}

/// Derives a key pair from the primes `p` and `q`: computes `n`,
/// `n_squared` and `lambda`, then draws generators of at most `bits` bits
/// until one is admissible, giving up after `attempts` draws.
pub fn derive_key_pair(
    p: &num::BigUint,
    q: &num::BigUint,
    bits: usize,
    rng: &mut rand::rngs::StdRng,
    attempts: u64,
) -> (r: Result<KeyPair, KeyGenError>)
    requires
        big_value(*p) >= 1,
        big_value(*q) >= 1,
    ensures
        r matches Ok(kp) ==> derived_from(kp, big_value(*p), big_value(*q), bits)
            && big_value(kp.public_key.g) < pow2(bits as nat),
        r matches Err(e) ==> e == KeyGenError::GeneratorSearchExhausted,
        attempts == 0 ==> r is Err,
{
    let one = big_from_u64(1);
    let n = big_mul(p, q);
    let n_squared = big_mul(&n, &n);
    let p_minus_one = big_sub(p, &one);
    let q_minus_one = big_sub(q, &one);
    let lambda = big_lcm(&p_minus_one, &q_minus_one);
    proof {
        vstd::arithmetic::mul::lemma_mul_nonzero(big_value(*p) as int, big_value(*q) as int);
    }
    let mut i: u64 = 0;
    while i < attempts
        invariant
            i <= attempts,
            big_value(n) == big_value(*p) * big_value(*q),
            big_value(n) != 0,
            big_value(n_squared) == big_value(n) * big_value(n),
            big_value(lambda) == lcm((big_value(*p) - 1) as nat, (big_value(*q) - 1) as nat),
        decreases attempts - i,
    {
        let g = random_bits(rng, bits);
        match admissible_denominator(&n, &n_squared, &lambda, &g) {
            Some(mu) => {
                let public_key = PublicKey { bits, n: n.clone(), n_squared, g };
                let private_key = PrivateKey { lambda, denominator: mu };
                return Ok(KeyPair { public_key, private_key });
            },
            None => {},
        }
        i = i + 1;
    }
    Err(KeyGenError::GeneratorSearchExhausted)
}

/// For a key pair derived from `p` and `q` with `n = p * q > 1`, the
/// denominator undoes `L(g^lambda mod n^2)`:
/// `mu * L(g^lambda mod n^2) mod n = 1`.
pub proof fn lemma_denominator_round_trip(kp: KeyPair, p: nat, q: nat, bits: usize)
    requires
        derived_from(kp, p, q, bits),
        p * q > 1,
    ensures
        ({
            let n = big_value(kp.public_key.n);
            let helper = generator_helper(
                big_value(kp.public_key.g),
                big_value(kp.private_key.lambda),
                n,
            );
            (big_value(kp.private_key.denominator) * helper) % n == 1
        }),
{
    vstd::arithmetic::div_mod::lemma_small_mod(1, p * q);
}

/// For a key pair derived from `p` and `q`, the modulus is exactly `p * q`
/// and the stored square is exactly `n * n`.
pub proof fn lemma_modulus_invariants(kp: KeyPair, p: nat, q: nat, bits: usize)
    requires
        derived_from(kp, p, q, bits),
    ensures
        big_value(kp.public_key.n) == p * q,
        big_value(kp.public_key.n_squared) == big_value(kp.public_key.n) * big_value(
            kp.public_key.n,
        ),
{
}

} // verus!
