//! ElGamal public-key encryption over a prime-order multiplicative subgroup.
//!
//! The library supports two modes: standard (multiplicative) ElGamal, and
//! exponent-encoded ElGamal, whose ciphertexts combine to an encryption of
//! the *sum* of the plaintexts and whose decryption recovers the message by
//! a bounded discrete-logarithm search. Public parameters come either from
//! the registry of vetted groups or from fresh safe-prime generation.

#![allow(unused_imports)]
use vstd::prelude::*;

pub mod arith;
pub mod dl_solvers;
pub mod elgamal;
pub mod groups;
pub mod prime;
pub mod specs;

pub use arith::BigInt;

use vstd::arithmetic::power2::pow2;

verus! {

/// Standard (multiplicative) ElGamal: plaintexts are group elements, and
/// homomorphic combination multiplies them.
pub struct ElGamal;

/// Exponent-encoded ElGamal: a small plaintext `m` is encoded as `g^m`, so
/// homomorphic combination adds plaintexts; decryption needs a bounded
/// discrete-logarithm search.
pub struct ExponentElGamal;

/// Public parameters of a cyclic subgroup of order `q`, generated by `g`,
/// of the multiplicative group modulo the prime `p`.
#[derive(Debug)]
pub struct ElGamalPP {
    pub g: BigInt,
    pub q: BigInt,
    pub p: BigInt,
}

/// A public key: the parameters together with `h = g^x mod p`.
#[derive(Debug)]
pub struct ElGamalPublicKey {
    pub pp: ElGamalPP,
    pub h: BigInt,
}

/// A private key: the parameters together with the secret exponent `x`.
#[derive(Debug)]
pub struct ElGamalPrivateKey {
    pub pp: ElGamalPP,
    pub x: BigInt,
}

/// A key pair, generated atomically so that `pk.h = g^sk.x mod p`.
#[derive(Debug)]
pub struct ElGamalKeyPair {
    pub pk: ElGamalPublicKey,
    pub sk: ElGamalPrivateKey,
}

/// A ciphertext `(c1, c2)`, carrying the parameters it was built under so
/// that later operations can check parameter agreement.
#[derive(Debug)]
pub struct ElGamalCiphertext {
    pub c1: BigInt,
    pub c2: BigInt,
    pub pp: ElGamalPP,
}

/// The failures the engine surfaces; no operation substitutes a default
/// value on error.
#[derive(Copy, Clone, Debug, PartialEq, Eq)]
pub enum ElGamalError {
    /// The message lies outside the representable range of the chosen mode.
    EncryptionError,
    /// Ciphertext and key parameters disagree, or the discrete-log search
    /// was exhausted without finding the plaintext within its bound.
    DecryptionError,
    /// The combined ciphertexts were built under different parameters.
    HomomorphicError,
    /// The parameters fail validation, or generation did not converge
    /// within its retry ceiling.
    ParamError,
}

impl ElGamalPP {
    /// The two parameter sets describe the same group, value for value.
    pub open spec fn same_group(&self, other: &ElGamalPP) -> bool {
        self.g.value() == other.g.value() && self.q.value() == other.q.value()
            && self.p.value() == other.p.value()
    }

    /// Whether the two parameter sets describe the same group.
    pub fn eq_group(&self, other: &ElGamalPP) -> (r: bool)
        ensures
            r == self.same_group(other),
    {
        self.g.eq_value(&other.g) && self.q.eq_value(&other.q) && self.p.eq_value(&other.p)
    }
}

impl Clone for ElGamalPP {
    /// A copy describing the same group.
    fn clone(&self) -> (r: Self)
        ensures
            r.same_group(self),
    {
        ElGamalPP { g: self.g.clone(), q: self.q.clone(), p: self.p.clone() }
    }
}

impl Clone for ElGamalPublicKey {
    /// A copy with the same group and the same public element.
    fn clone(&self) -> (r: Self)
        ensures
            r.pp.same_group(&self.pp),
            r.h.value() == self.h.value(),
    {
        ElGamalPublicKey { pp: self.pp.clone(), h: self.h.clone() }
    }
}

impl Clone for ElGamalPrivateKey {
    /// A copy with the same group and the same secret exponent.
    fn clone(&self) -> (r: Self)
        ensures
            r.pp.same_group(&self.pp),
            r.x.value() == self.x.value(),
    {
        ElGamalPrivateKey { pp: self.pp.clone(), x: self.x.clone() }
    }
}

impl Clone for ElGamalCiphertext {
    /// A copy with the same components and the same group.
    fn clone(&self) -> (r: Self)
        ensures
            r.c1.value() == self.c1.value(),
            r.c2.value() == self.c2.value(),
            r.pp.same_group(&self.pp),
    {
        ElGamalCiphertext { c1: self.c1.clone(), c2: self.c2.clone(), pp: self.pp.clone() }
    }
}

/// A source of random numbers. Production implementations must draw from a
/// cryptographically secure entropy source; a deterministic substitute is
/// permitted only for testing, wired in as another implementation of this
/// capability.
pub trait Rand {
    /// A uniformly random number in `[0, upper)`. `upper` must be positive.
    fn sample_below(&self, upper: &BigInt) -> (r: BigInt)
        requires
            upper.value() > 0,
        ensures
            r.value() < upper.value(),
    ;

    /// A uniformly random number in `[lower, upper)`. The range must be
    /// non-empty.
    fn sample_range(&self, lower: &BigInt, upper: &BigInt) -> (r: BigInt)
        requires
            lower.value() < upper.value(),
        ensures
            lower.value() <= r.value() < upper.value(),
    ;

    /// A uniformly random number in `[0, 2^bit_size)`.
    fn sample(&self, bit_size: usize) -> (r: BigInt)
        ensures
            r.value() < pow2(bit_size as nat),
    ;
}

/// The production randomness source, backed by the operating system's
/// secure generator.
pub struct BigIntRand {}

impl Rand for BigIntRand {
    fn sample_below(&self, upper: &BigInt) -> (r: BigInt) {
        BigInt::sample_below(upper)
    }

    fn sample_range(&self, lower: &BigInt, upper: &BigInt) -> (r: BigInt) {
        BigInt::sample_range(lower, upper)
    }

    fn sample(&self, bit_size: usize) -> (r: BigInt) {
        BigInt::sample(bit_size)
    }
}

} // verus!
