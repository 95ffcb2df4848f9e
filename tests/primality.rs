use num::BigUint;
use paillier_keygen::primality::{generate_possible_prime, miller_rabin, miller_rabin_with};
use rand::rngs::StdRng;
use rand::SeedableRng;

fn big(x: u64) -> BigUint {
    BigUint::from(x)
}

fn is_prime_by_division(n: u64) -> bool {
    if n < 2 {
        return false;
    }
    let mut d: u64 = 2;
    while d * d <= n {
        if n % d == 0 {
            return false;
        }
        d += 1;
    }
    true
}

#[test]
fn small_primes_pass() {
    let mut rng = StdRng::seed_from_u64(1);
    for n in [2u64, 3, 5, 7, 11, 13, 97] {
        for certainty in 1u32..=8 {
            assert!(miller_rabin(&big(n), certainty, &mut rng), "{} should pass", n);
        }
    }
}

#[test]
fn composites_fail_with_four_rounds() {
    let mut rng = StdRng::seed_from_u64(2);
    let trials: u32 = 1000;
    for n in [4u64, 9, 15, 21, 221, 341] {
        let mut passed: u32 = 0;
        for _ in 0..trials {
            if miller_rabin(&big(n), 4, &mut rng) {
                passed += 1;
            }
        }
        // at most a 4^-4 share of the runs may take a composite for prime
        assert!(passed * 256 <= trials, "{} passed {} times", n, passed);
    }
}

#[test]
fn two_and_three_draw_no_witness() {
    for n in [0u64, 1, 2, 3] {
        let mut rng = StdRng::seed_from_u64(3);
        let before = rng.clone();
        assert!(miller_rabin(&big(n), 16, &mut rng));
        assert_eq!(rng, before);
    }
}

#[test]
fn zero_rounds_pass_anything() {
    let mut rng = StdRng::seed_from_u64(4);
    assert!(miller_rabin(&big(221), 0, &mut rng));
}

#[test]
fn explicit_witnesses_decide() {
    // 341 = 11 * 31 is a Fermat liar for base 2, but not a strong one
    assert!(!miller_rabin_with(&big(341), &vec![big(2)]));
    // 2047 = 23 * 89 is a strong pseudoprime to base 2, and base 3 exposes it
    assert!(miller_rabin_with(&big(2047), &vec![big(2)]));
    assert!(!miller_rabin_with(&big(2047), &vec![big(2), big(3)]));
    assert!(miller_rabin_with(&big(97), &vec![big(2), big(3), big(5), big(95)]));
    assert!(!miller_rabin_with(&big(9), &vec![big(2)]));
    assert!(miller_rabin_with(&big(3), &vec![big(2)]));
    assert!(miller_rabin_with(&big(221), &vec![]));
}

#[test]
fn even_candidate_fails() {
    assert!(!miller_rabin_with(&big(4), &vec![big(2)]));
    assert!(!miller_rabin_with(&big(100), &vec![big(7)]));
}

#[test]
fn generated_primes_pass_the_tester() {
    let mut rng = StdRng::seed_from_u64(5);
    let p = generate_possible_prime(&mut rng, 32, 8, u64::MAX).unwrap();
    let q = generate_possible_prime(&mut rng, 32, 8, u64::MAX).unwrap();
    for x in [&p, &q] {
        assert!(x.bits() <= 32);
        assert!(x % 2u32 == big(1));
        assert!(miller_rabin(x, 8, &mut rng));
        let v = u64::try_from(x.clone()).unwrap();
        assert!(v <= 3 || is_prime_by_division(v));
    }
}

#[test]
fn prime_search_gives_up() {
    let mut rng = StdRng::seed_from_u64(6);
    assert_eq!(generate_possible_prime(&mut rng, 32, 8, 0), None);
}
