use num::{BigUint, Integer};
use paillier_keygen::keys::{admissible_denominator, calculate_l, derive_key_pair};
use paillier_keygen::primality::generate_possible_prime;
use paillier_keygen::{KeyGenError, KeyPair, KeyPairBuilder};
use rand::rngs::StdRng;
use rand::SeedableRng;

fn big(x: u64) -> BigUint {
    BigUint::from(x)
}

fn gcd_u64(a: u64, b: u64) -> u64 {
    if b == 0 {
        a
    } else {
        gcd_u64(b, a % b)
    }
}

fn helper_of(kp: &KeyPair) -> BigUint {
    let n = &kp.public_key.n;
    let u = kp.public_key.g.modpow(&kp.private_key.lambda, &kp.public_key.n_squared);
    if u == big(0) {
        big(0)
    } else {
        (u - big(1)) / n
    }
}

fn check_invariants(kp: &KeyPair) {
    let n = &kp.public_key.n;
    assert_eq!(kp.public_key.n_squared, n * n);
    let helper = helper_of(kp);
    assert_eq!(helper.gcd(n), big(1));
    assert_eq!((&kp.private_key.denominator * &helper) % n, big(1));
}

#[test]
fn l_function_values() {
    assert_eq!(calculate_l(&big(287), &big(143)), big(2));
    assert_eq!(calculate_l(&big(144), &big(143)), big(1));
    assert_eq!(calculate_l(&big(1), &big(143)), big(0));
    assert_eq!(calculate_l(&big(0), &big(143)), big(0));
}

#[test]
fn admissible_generator_for_eleven_and_thirteen() {
    let n = big(143);
    let n_squared = big(20449);
    let lambda = big(60);
    // (1 + n)^lambda = 1 + lambda * n modulo n^2, so L gives 60
    let mu = admissible_denominator(&n, &n_squared, &lambda, &big(144)).unwrap();
    assert_eq!((&mu * big(60)) % &n, big(1));
    assert!(mu < n);
    assert_eq!(mu, big(31));
}

#[test]
fn inadmissible_generators_rejected() {
    let n = big(143);
    let n_squared = big(20449);
    let lambda = big(60);
    assert_eq!(admissible_denominator(&n, &n_squared, &lambda, &big(0)), None);
    assert_eq!(admissible_denominator(&n, &n_squared, &lambda, &big(1)), None);
}

#[test]
fn scenario_eleven_and_thirteen() {
    let mut rng = StdRng::seed_from_u64(11);
    let kp = derive_key_pair(&big(11), &big(13), 8, &mut rng, u64::MAX).unwrap();
    assert_eq!(kp.public_key.bits, 8);
    assert_eq!(kp.public_key.n, big(143));
    assert_eq!(kp.public_key.n_squared, big(20449));
    assert_eq!(kp.private_key.lambda, big(60));
    assert!(kp.public_key.g < big(256));
    let u = kp.public_key.g.modpow(&big(60), &big(20449));
    let helper = (u - big(1)) / big(143);
    assert_eq!(helper.gcd(&big(143)), big(1));
    assert_eq!((&kp.private_key.denominator * &helper) % big(143), big(1));
}

#[test]
fn generator_search_gives_up() {
    let mut rng = StdRng::seed_from_u64(12);
    assert_eq!(
        derive_key_pair(&big(11), &big(13), 8, &mut rng, 0),
        Err(KeyGenError::GeneratorSearchExhausted)
    );
}

#[test]
fn derived_from_generated_primes() {
    let mut rng = StdRng::seed_from_u64(13);
    let p = generate_possible_prime(&mut rng, 24, 8, u64::MAX).unwrap();
    let q = generate_possible_prime(&mut rng, 24, 8, u64::MAX).unwrap();
    let kp = derive_key_pair(&p, &q, 24, &mut rng, u64::MAX).unwrap();
    assert_eq!(kp.public_key.n, &p * &q);
    let pv = u64::try_from(p).unwrap();
    let qv = u64::try_from(q).unwrap();
    let lcm = (pv - 1) / gcd_u64(pv - 1, qv - 1) * (qv - 1);
    assert_eq!(kp.private_key.lambda, big(lcm));
    check_invariants(&kp);
}

#[test]
fn seeded_runs_are_identical() {
    let mut builder = KeyPairBuilder::new();
    builder.bits(32).certainty(8);
    let a = builder.finalize_with(&mut StdRng::seed_from_u64(42)).unwrap();
    let b = builder.finalize_with(&mut StdRng::seed_from_u64(42)).unwrap();
    assert_eq!(a, b);
    check_invariants(&a);
    let c = builder.finalize_with(&mut StdRng::seed_from_u64(43)).unwrap();
    assert_ne!(a, c);
}

#[test]
fn builder_configures_the_run() {
    let mut builder = KeyPairBuilder::new();
    builder.bits(16).certainty(2);
    let kp = builder.finalize_with(&mut StdRng::seed_from_u64(14)).unwrap();
    assert_eq!(kp.public_key.bits, 16);
    assert!(kp.public_key.n < big(1u64 << 32));
    assert!(kp.public_key.g < big(1u64 << 16));
    check_invariants(&kp);
}

#[test]
fn zero_attempts_exhaust_prime_search() {
    let mut builder = KeyPairBuilder::new();
    builder.bits(16).attempts(0);
    assert_eq!(
        builder.finalize_with(&mut StdRng::seed_from_u64(15)),
        Err(KeyGenError::PrimeSearchExhausted)
    );
}

#[test]
fn finalize_with_system_randomness() {
    let mut builder = KeyPairBuilder::new();
    builder.bits(64);
    let kp = builder.finalize().unwrap();
    assert_eq!(kp.public_key.bits, 64);
    check_invariants(&kp);
}

#[test]
fn default_key_size() {
    let kp = KeyPairBuilder::new().finalize_with(&mut StdRng::seed_from_u64(16)).unwrap();
    assert_eq!(kp.public_key.bits, 512);
    assert!(kp.public_key.n.bits() <= 1024);
    assert!(kp.public_key.n.bits() > 900);
    check_invariants(&kp);
}
