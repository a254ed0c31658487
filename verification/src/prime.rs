//! The prime engine: safe-prime parameter generation and validation.

use vstd::prelude::*;

use vstd::arithmetic::power2::lemma_pow2_adds;
use vstd::arithmetic::power2::lemma_pow2_unfold;
use vstd::arithmetic::power2::pow2;

use crate::arith::BigInt;
use crate::specs::is_prime;
use crate::specs::powmod;
use crate::ElGamalError;
use crate::ElGamalPP;
use crate::Rand;

verus! {

/// Rounds of the probabilistic primality test. A composite number passes
/// all rounds with probability at most `4^-40 = 2^-80` per invocation; a
/// prime always passes.
pub const PRIME_TEST_ROUNDS: u32 = 40;

impl ElGamalPP {
    /// The structural half of parameter validity: `p = 2q + 1`, `1 < g < p`
    /// (so in particular `g != 1`), and `g^q ≡ 1 (mod p)`. Primality of `p`
    /// and `q` is checked probabilistically at run time and is not recorded
    /// here.
    pub open spec fn valid_structure(&self) -> bool {
        &&& self.p.value() == 2 * self.q.value() + 1
        &&& 1 < self.g.value() < self.p.value()
        &&& powmod(self.g.value(), self.q.value(), self.p.value()) == 1
    }

    /// Validates externally supplied parameters: checks that `p = 2q + 1`,
    /// that `1 < g < p`, that `p` and `q` pass the probabilistic primality
    /// test, and that `g^q ≡ 1 (mod p)`. Any triple that breaks one of the
    /// structural conditions is rejected; a triple that satisfies them and
    /// whose `p` and `q` really are prime is accepted.
    pub fn validate(&self) -> (r: Result<(), ElGamalError>)
        ensures
            match r {
                Ok(u) => self.valid_structure(),
                Err(e) => e == ElGamalError::ParamError,
            },
            self.valid_structure() && is_prime(self.p.value()) && is_prime(self.q.value())
                ==> r is Ok,
    {
        let one = BigInt::one();
        let two_q_plus_one = self.q.plus(&self.q).plus(&one);
        if !self.p.eq_value(&two_q_plus_one) {
            return Err(ElGamalError::ParamError);
        }
        if !one.lt_value(&self.g) || !self.g.lt_value(&self.p) {
            return Err(ElGamalError::ParamError);
        }
        if !self.p.is_probable_prime(PRIME_TEST_ROUNDS) {
            return Err(ElGamalError::ParamError);
        }
        if !self.q.is_probable_prime(PRIME_TEST_ROUNDS) {
            return Err(ElGamalError::ParamError);
        }
        let gq = BigInt::mod_pow(&self.g, &self.q, &self.p);
        if !gq.eq_value(&one) {
            return Err(ElGamalError::ParamError);
        }
        Ok(())
    }

    /// Generates fresh safe-prime parameters of the requested bit length:
    /// repeatedly samples an odd candidate `q` of `bit_size - 1` bits, tests
    /// `q` and `p = 2q + 1` for primality, then looks for a generator
    /// `g = a^2 mod p != 1` of the order-`q` subgroup, and validates the
    /// triple before returning it. Sampling is capped at a ceiling of
    /// `25 * bit_size^2` attempts; exhausting the ceiling — primes too
    /// sparse for the requested length, or a failing randomness source —
    /// reports `ParamError`.
    pub fn generate<R: Rand>(bit_size: u32, rng: &R) -> (r: Result<ElGamalPP, ElGamalError>)
        requires
            4 <= bit_size <= 4096,
        ensures
            match r {
                Ok(pp) => pp.valid_structure() && pow2((bit_size - 2) as nat) <= pp.q.value()
                    < pow2((bit_size - 1) as nat),
                Err(e) => e == ElGamalError::ParamError,
            },
    {
        let one = BigInt::one();
        let two = BigInt::from_u64(2);
        proof {
            assert(25 * (bit_size as int) * (bit_size as int) <= 25 * 4096 * 4096)
                by (nonlinear_arith)
                requires
                    bit_size <= 4096,
            ;
        }
        let ceiling: u64 = 25 * (bit_size as u64) * (bit_size as u64);
        let mut attempt: u64 = 0;
        while attempt < ceiling
            invariant
                4 <= bit_size <= 4096,
                one.value() == 1,
                two.value() == 2,
            decreases ceiling - attempt,
        {
            // An odd candidate of exactly bit_size - 1 bits: the top bit is
            // forced, the rest are random, and an even draw is nudged up.
            let top = BigInt::power_of_two(bit_size - 2);
            let mut q = top.plus(&rng.sample((bit_size - 2) as usize));
            if q.is_even() {
                q = q.plus(&one);
            }
            proof {
                lemma_pow2_adds((bit_size - 2) as nat, 1);
                lemma_pow2_unfold(1nat);
                lemma_pow2_unfold((bit_size - 1) as nat);
            }
            if q.is_probable_prime(PRIME_TEST_ROUNDS) {
                let p = q.plus(&q).plus(&one);
                if p.is_probable_prime(PRIME_TEST_ROUNDS) {
                    let p_minus_one = q.plus(&q);
                    if two.lt_value(&p_minus_one) {
                        match find_generator(&two, &p_minus_one, &p, rng) {
                            Some(g) => {
                                let pp = ElGamalPP { g, q, p };
                                match pp.validate() {
                                    Ok(u) => {
                                        return Ok(pp);
                                    },
                                    Err(_) => {},
                                }
                            },
                            None => {},
                        }
                    }
                }
            }
            attempt = attempt + 1;
        }
        Err(ElGamalError::ParamError)
    }
}

/// Looks for a generator of the order-`q` subgroup: samples `a` in
/// `[2, p - 1)` and accepts `g = a^2 mod p` unless it is `1`. The candidate
/// is squared because the subgroup has index `(p - 1) / q = 2` in the full
/// multiplicative group.
fn find_generator<R: Rand>(two: &BigInt, p_minus_one: &BigInt, p: &BigInt, rng: &R) -> (r: Option<
    BigInt,
>)
    requires
        two.value() == 2,
        two.value() < p_minus_one.value(),
        p.value() >= 1,
    ensures
        match r {
            Some(g) => g.value() != 1,
            None => true,
        },
{
    let one = BigInt::one();
    let mut tries: u32 = 0;
    while tries < 100
        invariant
            one.value() == 1,
            two.value() == 2,
            two.value() < p_minus_one.value(),
            p.value() >= 1,
        decreases 100 - tries,
    {
        let a = rng.sample_range(two, p_minus_one);
        let g = BigInt::mod_pow(&a, two, p);
        if !g.eq_value(&one) {
            return Some(g);
        }
        tries = tries + 1;
    }
    None
}

} // verus!
