//! Configuration of a key generation run, and the run itself.

use vstd::arithmetic::power2::pow2;
use vstd::prelude::*;

use crate::bigint::{big_value, rng_from_os};
use crate::keys::{derive_key_pair, derived_from, KeyGenError, KeyPair};
use crate::primality::{generate_possible_prime, passes_tester};

verus! {

/// Bit length of each prime factor unless configured otherwise.
pub const DEFAULT_BITS: usize = 512;

/// Miller-Rabin rounds unless configured otherwise.
pub const DEFAULT_CERTAINTY: u32 = 4;

/// Configuration of key generation: the bit length of each prime factor,
/// the number of Miller-Rabin rounds, and how many candidates each search
/// may draw before it gives up (by default as many as a `u64` counts).
#[derive(Clone, Copy, Debug)]
pub struct KeyPairBuilder {
    bits: usize,
    certainty: u32,
    attempts: u64,
}

/// `kp` can come out of a run with this configuration: it is derived from
/// two odd values of at most `bits` bits that each pass the primality test
/// with `certainty` rounds, and its generator has at most `bits` bits.
pub open spec fn generated_with(kp: KeyPair, bits: usize, certainty: u32) -> bool {
    exists|p: nat, q: nat|
        p < pow2(bits as nat) && q < pow2(bits as nat) && p % 2 == 1 && q % 2 == 1
            && passes_tester(p, certainty as nat) && passes_tester(q, certainty as nat)
            && #[trigger] derived_from(kp, p, q, bits) && big_value(kp.public_key.g) < pow2(
            bits as nat,
        )
}

impl KeyPairBuilder {
    /// The configured bit length of each prime factor.
    pub closed spec fn spec_bits(&self) -> usize {
        self.bits
    }

    /// The configured number of Miller-Rabin rounds.
    pub closed spec fn spec_certainty(&self) -> u32 {
        self.certainty
    }

    /// The configured number of candidates each search may draw.
    pub closed spec fn spec_attempts(&self) -> u64 {
        self.attempts
    }

    /// A configuration with 512 bits, 4 rounds and no practical limit on
    /// the searches.
    pub fn new() -> (r: KeyPairBuilder)
        ensures
            r.spec_bits() == DEFAULT_BITS,
            r.spec_certainty() == DEFAULT_CERTAINTY,
            r.spec_attempts() == u64::MAX,
    {
        KeyPairBuilder { bits: DEFAULT_BITS, certainty: DEFAULT_CERTAINTY, attempts: u64::MAX }
    }

    /// Sets the bit length of each prime factor.
    pub fn bits(&mut self, bits: usize) -> (r: &mut KeyPairBuilder)
        ensures
            r.spec_bits() == bits,
            r.spec_certainty() == old(self).spec_certainty(),
            r.spec_attempts() == old(self).spec_attempts(),
            *final(self) == *final(r),
    {
        self.bits = bits;
        self
    }

    /// Sets the number of Miller-Rabin rounds.
    pub fn certainty(&mut self, certainty: u32) -> (r: &mut KeyPairBuilder)
        ensures
            r.spec_certainty() == certainty,
            r.spec_bits() == old(self).spec_bits(),
            r.spec_attempts() == old(self).spec_attempts(),
            *final(self) == *final(r),
    {
        self.certainty = certainty;
        self
    }

    /// Sets how many candidates each search may draw.
    pub fn attempts(&mut self, attempts: u64) -> (r: &mut KeyPairBuilder)
        ensures
            r.spec_attempts() == attempts,
            r.spec_bits() == old(self).spec_bits(),
            r.spec_certainty() == old(self).spec_certainty(),
            *final(self) == *final(r),
    {
        self.attempts = attempts;
        self
    }

    /// Generates a key pair with the given generator for every draw.
    pub fn finalize_with(&self, rng: &mut rand::rngs::StdRng) -> (r: Result<KeyPair, KeyGenError>)
        ensures
            r matches Ok(kp) ==> generated_with(kp, self.spec_bits(), self.spec_certainty()),
            r matches Err(e) ==> e == KeyGenError::PrimeSearchExhausted || e
                == KeyGenError::GeneratorSearchExhausted,
            self.spec_attempts() == 0 ==> r == Err::<KeyPair, KeyGenError>(
                KeyGenError::PrimeSearchExhausted,
            ),
    {
        let p = match generate_possible_prime(rng, self.bits, self.certainty, self.attempts) {
            Some(p) => p,
            None => return Err(KeyGenError::PrimeSearchExhausted),
        };
        let q = match generate_possible_prime(rng, self.bits, self.certainty, self.attempts) {
            Some(q) => q,
            None => return Err(KeyGenError::PrimeSearchExhausted),
        };
        let r = derive_key_pair(&p, &q, self.bits, rng, self.attempts);
        proof {
            if r is Ok {
                assert(derived_from(r->Ok_0, big_value(p), big_value(q), self.bits));
            }
        }
        r
    }

    /// Generates a key pair, seeding a cryptographically secure generator
    /// from the operating system for every draw.
    pub fn finalize(&self) -> (r: Result<KeyPair, KeyGenError>)
        ensures
            r matches Ok(kp) ==> generated_with(kp, self.spec_bits(), self.spec_certainty()),
            self.spec_attempts() == 0 ==> r is Err,
    {
        match rng_from_os() {
            Ok(mut rng) => self.finalize_with(&mut rng),
            Err(_) => Err(KeyGenError::RandomSourceUnavailable),
        }
    }
}

} // verus!
