//! Key-pair generation for the Paillier cryptosystem, with the
//! Miller-Rabin primality test and the derivation of the public and
//! private parameters proved against their mathematical definitions.

pub mod bigint;
pub mod arith;
pub mod primality;
pub mod keys;
pub mod builder;

pub use builder::KeyPairBuilder;
pub use keys::{KeyGenError, KeyPair, PrivateKey, PublicKey};
