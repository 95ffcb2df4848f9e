//! Arbitrary-precision naturals, provided by `num`, and random sampling
//! from a seedable cryptographically secure generator, provided by
//! `rand`. Each operation states its result over `big_value`, the
//! natural number that a `BigUint` denotes.

use num::bigint::RandBigInt;
use num::Integer;
use rand::SeedableRng;
use vstd::arithmetic::power::pow;
use vstd::arithmetic::power2::pow2;
use vstd::prelude::*;

use crate::arith::{gcd, lcm, two_adic_val};

verus! {

#[verifier::external_type_specification]
#[verifier::external_body]
pub struct ExBigUint(num::BigUint);

#[verifier::external_type_specification]
#[verifier::external_body]
pub struct ExStdRng(rand::rngs::StdRng);

#[verifier::external_type_specification]
#[verifier::external_body]
pub struct ExRandError(rand::Error);

/// The natural number that a `BigUint` denotes.
pub uninterp spec fn big_value(x: num::BigUint) -> nat;

/// Relies on `BigUint::from(u64)`: the value is the integer given.
#[verifier::external_body]
pub(crate) fn big_from_u64(x: u64) -> (r: num::BigUint)
    ensures
        big_value(r) == x,
{
    num::BigUint::from(x)
}

/// Relies on `Clone` for `BigUint`: the copy denotes the same value.
pub assume_specification[ <num::BigUint as Clone>::clone ](x: &num::BigUint) -> (r: num::BigUint)
    ensures
        big_value(r) == big_value(*x),
;

/// Relies on `PartialEq` for `BigUint`: equal exactly when the values are.
#[verifier::external_body]
pub(crate) fn big_eq(a: &num::BigUint, b: &num::BigUint) -> (r: bool)
    ensures
        r == (big_value(*a) == big_value(*b)),
{
    a == b
}

/// Relies on `PartialOrd` for `BigUint`: the order of the values.
#[verifier::external_body]
pub(crate) fn big_le(a: &num::BigUint, b: &num::BigUint) -> (r: bool)
    ensures
        r == (big_value(*a) <= big_value(*b)),
{
    a <= b
}

/// Relies on `Sub` for `&BigUint`, which panics when the result would
/// be negative.
#[verifier::external_body]
pub(crate) fn big_sub(a: &num::BigUint, b: &num::BigUint) -> (r: num::BigUint)
    requires
        big_value(*b) <= big_value(*a),
    ensures
        big_value(r) == big_value(*a) - big_value(*b),
{
    a - b
}

/// Relies on `Mul` for `&BigUint`: the exact product.
#[verifier::external_body]
pub(crate) fn big_mul(a: &num::BigUint, b: &num::BigUint) -> (r: num::BigUint)
    ensures
        big_value(r) == big_value(*a) * big_value(*b),
{
    a * b
}

/// Relies on `Div` for `&BigUint`: the truncated quotient; panics on a
/// zero divisor.
#[verifier::external_body]
pub(crate) fn big_div(a: &num::BigUint, b: &num::BigUint) -> (r: num::BigUint)
    requires
        big_value(*b) != 0,
    ensures
        big_value(r) == big_value(*a) / big_value(*b),
{
    a / b
}

/// Relies on `Shr<u64>` for `&BigUint`: division by a power of two.
#[verifier::external_body]
pub(crate) fn big_shr(a: &num::BigUint, t: u64) -> (r: num::BigUint)
    ensures
        big_value(r) == big_value(*a) / pow2(t as nat),
{
    a >> t
}

/// Relies on `BigUint::trailing_zeros`: the number of low zero bits, or
/// `None` for zero.
#[verifier::external_body]
pub(crate) fn big_trailing_zeros(a: &num::BigUint) -> (r: Option<u64>)
    ensures
        big_value(*a) == 0 <==> r is None,
        r matches Some(t) ==> t == two_adic_val(big_value(*a)),
{
    a.trailing_zeros()
}

/// Relies on `Integer::is_even` for `BigUint`.
#[verifier::external_body]
pub(crate) fn big_is_even(a: &num::BigUint) -> (r: bool)
    ensures
        r == (big_value(*a) % 2 == 0),
{
    a.is_even()
}

/// Relies on `BigUint::modpow`: `(base ^ exponent) % modulus`; panics on
/// a zero modulus.
#[verifier::external_body]
pub(crate) fn big_modpow(base: &num::BigUint, exponent: &num::BigUint, modulus: &num::BigUint) -> (r: num::BigUint)
    requires
        big_value(*modulus) != 0,
    ensures
        big_value(r) == pow(big_value(*base) as int, big_value(*exponent)) % (big_value(*modulus) as int),
{
    base.modpow(exponent, modulus)
}

/// Relies on `BigUint::modinv`: the inverse in `[0, modulus)`, which
/// exists exactly when the arguments are coprime; panics on a zero
/// modulus.
#[verifier::external_body]
pub(crate) fn big_modinv(a: &num::BigUint, modulus: &num::BigUint) -> (r: Option<num::BigUint>)
    requires
        big_value(*modulus) != 0,
    ensures
        r is Some <==> gcd(big_value(*a), big_value(*modulus)) == 1,
        r matches Some(x) ==> big_value(x) < big_value(*modulus) && (big_value(*a) * big_value(x))
            % big_value(*modulus) == 1nat % big_value(*modulus),
{
    a.modinv(modulus)
}

/// Relies on `Integer::gcd` for `BigUint`.
#[verifier::external_body]
pub(crate) fn big_gcd(a: &num::BigUint, b: &num::BigUint) -> (r: num::BigUint)
    ensures
        big_value(r) == gcd(big_value(*a), big_value(*b)),
{
    a.gcd(b)
}

/// Relies on `Integer::lcm` for `BigUint`.
#[verifier::external_body]
pub(crate) fn big_lcm(a: &num::BigUint, b: &num::BigUint) -> (r: num::BigUint)
    ensures
        big_value(r) == lcm(big_value(*a), big_value(*b)),
{
    a.lcm(b)
}

/// Relies on `RandBigInt::gen_biguint`: a uniform value of at most
/// `bits` bits.
#[verifier::external_body]
pub(crate) fn random_bits(rng: &mut rand::rngs::StdRng, bits: usize) -> (r: num::BigUint)
    ensures
        big_value(r) < pow2(bits as nat),
{
    rng.gen_biguint(bits as u64)
}

/// Relies on `RandBigInt::gen_biguint_range`: a uniform value in
/// `[low, high)`; panics unless `low < high`.
#[verifier::external_body]
pub(crate) fn random_in_range(rng: &mut rand::rngs::StdRng, low: &num::BigUint, high: &num::BigUint) -> (r: num::BigUint)
    requires
        big_value(*low) < big_value(*high),
    ensures
        big_value(*low) <= big_value(r) < big_value(*high),
{
    rng.gen_biguint_range(low, high)
}

/// Relies on `SeedableRng::from_rng` with the operating system's
/// generator as the seed source; fails when that source is unavailable.
#[verifier::external_body]
pub(crate) fn rng_from_os() -> (r: Result<rand::rngs::StdRng, rand::Error>) {
    rand::rngs::StdRng::from_rng(rand::rngs::OsRng)
}

} // verus!
