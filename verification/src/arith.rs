//! Arbitrary-precision non-negative integers.
//!
//! The number itself is plain data: a big-endian byte string whose numeric
//! reading is given by [`be_val`]. All arithmetic on these numbers is
//! delegated to the `curv` arbitrary-precision collaborator through a small
//! set of trusted wrappers; everything else about them is verified.

use vstd::arithmetic::div_mod::lemma_small_mod;
use vstd::prelude::*;

use curv::arithmetic::Converter;
use curv::arithmetic::Modulo;
use curv::arithmetic::Primes;
use curv::arithmetic::Samplable;
use vstd::arithmetic::power2::pow2;

use crate::specs::has_inverse;
use crate::specs::is_prime;
use crate::specs::mod_product;
use crate::specs::powmod;

verus! {

/// Numeric value of a big-endian byte string.
pub open spec fn be_val(s: Seq<u8>) -> nat
    decreases s.len(),
{
    if s.len() == 0 {
        0
    } else {
        256 * be_val(s.drop_last()) + (s.last() as nat)
    }
}

/// An arbitrary-precision non-negative integer, stored as big-endian bytes.
#[derive(Debug)]
pub struct BigInt {
    bytes: Vec<u8>,
}

impl BigInt {
    /// The number this value stands for.
    pub closed spec fn value(&self) -> nat {
        be_val(self.bytes@)
    }

    /// Builds the number with the given big-endian byte representation.
    pub fn from_bytes(bytes: Vec<u8>) -> (r: BigInt)
        ensures
            r.value() == be_val(bytes@),
    {
        BigInt { bytes }
    }

    /// The big-endian byte representation this number was built from.
    pub fn to_bytes(&self) -> (r: Vec<u8>)
        ensures
            be_val(r@) == self.value(),
    {
        let r = copy_bytes(&self.bytes);
        r
    }

    /// The number zero.
    pub fn zero() -> (r: BigInt)
        ensures
            r.value() == 0,
    {
        BigInt { bytes: Vec::new() }
    }

    /// The number one.
    pub fn one() -> (r: BigInt)
        ensures
            r.value() == 1,
    {
        let mut bytes: Vec<u8> = Vec::new();
        bytes.push(1);
        proof {
            assert(bytes@.drop_last() =~= Seq::<u8>::empty());
            assert(be_val(bytes@.drop_last()) == 0);
            assert(be_val(bytes@) == 1);
        }
        BigInt { bytes }
    }

    /// The power `2^k`.
    pub fn power_of_two(k: u32) -> (r: BigInt)
        ensures
            r.value() == pow2(k as nat),
    {
        let mut t = BigInt::one();
        let mut i: u32 = 0;
        proof {
            vstd::arithmetic::power2::lemma2_to64();
        }
        while i < k
            invariant
                i <= k,
                t.value() == pow2(i as nat),
            decreases k - i,
        {
            proof {
                vstd::arithmetic::power2::lemma_pow2_unfold((i + 1) as nat);
            }
            t = t.plus(&t);
            i = i + 1;
        }
        t
    }

    /// Whether the number is even.
    pub fn is_even(&self) -> (r: bool)
        ensures
            r == (self.value() % 2 == 0),
    {
        if self.bytes.len() == 0 {
            true
        } else {
            let b = self.bytes[self.bytes.len() - 1];
            proof {
                lemma_be_val_parity(self.bytes@);
            }
            b % 2 == 0
        }
    }

    /// Builds the number with the given small value.
    ///
    /// Relies on `curv::arithmetic::BigInt`'s `From<u64>` conversion and on
    /// `Converter::to_bytes`, whose result is the big-endian representation
    /// of the number.
    #[verifier::external_body]
    pub fn from_u64(n: u64) -> (r: BigInt)
        ensures
            r.value() == n,
    {
        let v = curv::arithmetic::BigInt::from(n);
        BigInt { bytes: v.to_bytes() }
    }

    /// Whether two numbers are equal.
    ///
    /// Relies on `curv::arithmetic::BigInt`'s `PartialEq`, which compares
    /// numbers by value, and on `Converter::from_bytes`, which reads a
    /// big-endian byte string.
    #[verifier::external_body]
    pub fn eq_value(&self, other: &BigInt) -> (r: bool)
        ensures
            r == (self.value() == other.value()),
    {
        let a = curv::arithmetic::BigInt::from_bytes(&self.bytes);
        let b = curv::arithmetic::BigInt::from_bytes(&other.bytes);
        a == b
    }

    /// Whether this number is strictly below another.
    ///
    /// Relies on `curv::arithmetic::BigInt`'s `Ord`, which orders numbers by
    /// value, and on `Converter::from_bytes`.
    #[verifier::external_body]
    pub fn lt_value(&self, other: &BigInt) -> (r: bool)
        ensures
            r == (self.value() < other.value()),
    {
        let a = curv::arithmetic::BigInt::from_bytes(&self.bytes);
        let b = curv::arithmetic::BigInt::from_bytes(&other.bytes);
        a < b
    }

    /// The sum of two numbers.
    ///
    /// Relies on `curv::arithmetic::BigInt`'s `Add`, which adds the numbers'
    /// values.
    #[verifier::external_body]
    pub fn plus(&self, other: &BigInt) -> (r: BigInt)
        ensures
            r.value() == self.value() + other.value(),
    {
        let a = curv::arithmetic::BigInt::from_bytes(&self.bytes);
        let b = curv::arithmetic::BigInt::from_bytes(&other.bytes);
        BigInt { bytes: (a + b).to_bytes() }
    }

    /// `base ^ exponent mod modulus`.
    ///
    /// Relies on `curv::arithmetic::Modulo::mod_pow`, which computes modular
    /// exponentiation of non-negative numbers, with a result below the
    /// modulus.
    #[verifier::external_body]
    pub fn mod_pow(base: &BigInt, exponent: &BigInt, modulus: &BigInt) -> (r: BigInt)
        requires
            modulus.value() > 0,
        ensures
            r.value() == powmod(base.value(), exponent.value(), modulus.value()),
    {
        let b = curv::arithmetic::BigInt::from_bytes(&base.bytes);
        let e = curv::arithmetic::BigInt::from_bytes(&exponent.bytes);
        let m = curv::arithmetic::BigInt::from_bytes(&modulus.bytes);
        BigInt { bytes: curv::arithmetic::BigInt::mod_pow(&b, &e, &m).to_bytes() }
    }

    /// `a * b mod modulus`.
    ///
    /// Relies on `curv::arithmetic::Modulo::mod_mul`, which reduces the
    /// product of the operands, with a result below the modulus.
    #[verifier::external_body]
    pub fn mod_mul(a: &BigInt, b: &BigInt, modulus: &BigInt) -> (r: BigInt)
        requires
            modulus.value() > 0,
        ensures
            r.value() == mod_product(a.value(), b.value(), modulus.value()),
    {
        let av = curv::arithmetic::BigInt::from_bytes(&a.bytes);
        let bv = curv::arithmetic::BigInt::from_bytes(&b.bytes);
        let m = curv::arithmetic::BigInt::from_bytes(&modulus.bytes);
        BigInt { bytes: curv::arithmetic::BigInt::mod_mul(&av, &bv, &m).to_bytes() }
    }

    /// The modular inverse of `a`, if `a` and the modulus are coprime.
    ///
    /// Relies on `curv::arithmetic::Modulo::mod_inv`, which runs the extended
    /// Euclidean algorithm and reduces the found coefficient below the
    /// modulus; when it returns a number `r`, then `a * r mod modulus == 1`,
    /// and it returns nothing exactly when `a` and the modulus share a
    /// divisor, in which case no inverse exists at all.
    #[verifier::external_body]
    pub fn mod_inv(a: &BigInt, modulus: &BigInt) -> (r: Option<BigInt>)
        requires
            modulus.value() >= 2,
        ensures
            match r {
                Some(i) => i.value() < modulus.value() && mod_product(
                    a.value(),
                    i.value(),
                    modulus.value(),
                ) == 1,
                None => !has_inverse(a.value(), modulus.value()),
            },
    {
        let av = curv::arithmetic::BigInt::from_bytes(&a.bytes);
        let m = curv::arithmetic::BigInt::from_bytes(&modulus.bytes);
        match curv::arithmetic::BigInt::mod_inv(&av, &m) {
            Some(i) => Some(BigInt { bytes: i.to_bytes() }),
            None => None,
        }
    }

    /// A uniformly random number in `[0, upper)`.
    ///
    /// Relies on `curv::arithmetic::Samplable::sample_below`: a number drawn
    /// from the operating system's secure generator, uniform in
    /// `[0, upper)`; panics if `upper <= 0`.
    #[verifier::external_body]
    pub fn sample_below(upper: &BigInt) -> (r: BigInt)
        requires
            upper.value() > 0,
        ensures
            r.value() < upper.value(),
    {
        let u = curv::arithmetic::BigInt::from_bytes(&upper.bytes);
        BigInt { bytes: curv::arithmetic::BigInt::sample_below(&u).to_bytes() }
    }

    /// A uniformly random number in `[lower, upper)`.
    ///
    /// Relies on `curv::arithmetic::Samplable::sample_range`: a number drawn
    /// from the operating system's secure generator, uniform in
    /// `[lower, upper)`; panics if `upper <= lower`.
    #[verifier::external_body]
    pub fn sample_range(lower: &BigInt, upper: &BigInt) -> (r: BigInt)
        requires
            lower.value() < upper.value(),
        ensures
            lower.value() <= r.value() < upper.value(),
    {
        let l = curv::arithmetic::BigInt::from_bytes(&lower.bytes);
        let u = curv::arithmetic::BigInt::from_bytes(&upper.bytes);
        BigInt { bytes: curv::arithmetic::BigInt::sample_range(&l, &u).to_bytes() }
    }

    /// A uniformly random number in `[0, 2^bit_size)`.
    ///
    /// Relies on `curv::arithmetic::Samplable::sample`: at most `bit_size`
    /// random bits from the operating system's secure generator.
    #[verifier::external_body]
    pub fn sample(bit_size: usize) -> (r: BigInt)
        ensures
            r.value() < pow2(bit_size as nat),
    {
        BigInt { bytes: curv::arithmetic::BigInt::sample(bit_size).to_bytes() }
    }

    /// Probabilistic primality test with the given number of rounds.
    ///
    /// Relies on `curv::arithmetic::Primes::is_probable_prime`: if the number
    /// is prime the test always succeeds; if it is composite the test fails
    /// with probability at least `1 - 4^-rounds` per invocation.
    #[verifier::external_body]
    pub fn is_probable_prime(&self, rounds: u32) -> (r: bool)
        ensures
            is_prime(self.value()) ==> r,
    {
        let n = curv::arithmetic::BigInt::from_bytes(&self.bytes);
        n.is_probable_prime(rounds)
    }
}

impl Clone for BigInt {
    /// A copy of the number, byte for byte.
    fn clone(&self) -> (r: Self)
        ensures
            r.value() == self.value(),
    {
        BigInt { bytes: copy_bytes(&self.bytes) }
    }
}

/// A byte-for-byte copy of a byte string.
fn copy_bytes(v: &Vec<u8>) -> (r: Vec<u8>)
    ensures
        r@ == v@,
{
    let mut r: Vec<u8> = Vec::new();
    let mut i: usize = 0;
    while i < v.len()
        invariant
            i <= v.len(),
            r@ == v@.subrange(0, i as int),
        decreases v.len() - i,
    {
        r.push(v[i]);
        proof {
            assert(r@ =~= v@.subrange(0, i as int + 1));
        }
        i = i + 1;
    }
    proof {
        assert(v@.subrange(0, v@.len() as int) =~= v@);
    }
    r
}

/// A big-endian byte string's value has the parity of its last byte.
proof fn lemma_be_val_parity(s: Seq<u8>)
    requires
        s.len() > 0,
    ensures
        be_val(s) % 2 == s.last() % 2,
{
    let prefix = be_val(s.drop_last());
    let last = s.last() as nat;
    assert(be_val(s) == 256 * prefix + last);
    assert((256 * prefix + last) % 2 == last % 2) by (nonlinear_arith);
    assert(last % 2 == s.last() % 2);
}

} // verus!
