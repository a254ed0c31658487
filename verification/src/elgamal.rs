//! The encryption engine: standard and exponent-encoded ElGamal, key
//! generation, homomorphic combination, and the laws they obey.

use vstd::arithmetic::div_mod::lemma_mod_bound;
use vstd::prelude::*;

use crate::arith::BigInt;
use crate::dl_solvers;
use crate::specs::has_inverse;
use crate::specs::is_inverse_of;
use crate::specs::lemma_inverse_unique;
use crate::specs::lemma_mask_cancels;
use crate::specs::lemma_mod_inverse_is_inverse;
use crate::specs::lemma_mod_product_pows;
use crate::specs::lemma_powmod_below;
use crate::specs::lemma_powmod_of_powmod;
use crate::specs::lemma_mod_product_reorder;
use crate::specs::mod_inverse;
use crate::specs::mod_product;
use crate::specs::powmod;
use crate::ElGamal;
use crate::ElGamalCiphertext;
use crate::ElGamalError;
use crate::ElGamalKeyPair;
use crate::ElGamalPP;
use crate::ElGamalPrivateKey;
use crate::ElGamalPublicKey;
use crate::ExponentElGamal;
use crate::Rand;

verus! {

/// The shared secret a private key derives from a ciphertext: `c1^x mod p`.
pub open spec fn shared_secret(c1: nat, x: nat, p: nat) -> nat {
    powmod(c1, x, p)
}

/// The group element a decryption uncovers: `c2 * (c1^x)^-1 mod p`.
pub open spec fn unmasked(c1: nat, c2: nat, x: nat, p: nat) -> nat {
    mod_product(c2, mod_inverse(shared_secret(c1, x, p), p), p)
}

impl ElGamalKeyPair {
    /// Generates a key pair under the given parameters: `x` is drawn
    /// uniformly from `[1, q)` and `h = g^x mod p`, so the public and the
    /// private half agree by construction.
    pub fn generate<R: Rand>(pp: &ElGamalPP, rng: &R) -> (r: ElGamalKeyPair)
        requires
            pp.p.value() >= 2,
            pp.q.value() >= 2,
        ensures
            r.pk.pp.same_group(pp),
            r.sk.pp.same_group(pp),
            1 <= r.sk.x.value() < pp.q.value(),
            r.pk.h.value() == powmod(pp.g.value(), r.sk.x.value(), pp.p.value()),
    {
        let one = BigInt::one();
        let x = rng.sample_range(&one, &pp.q);
        let h = BigInt::mod_pow(&pp.g, &x, &pp.p);
        ElGamalKeyPair {
            pk: ElGamalPublicKey { pp: pp.clone(), h },
            sk: ElGamalPrivateKey { pp: pp.clone(), x },
        }
    }
}

impl ElGamal {
    /// Encrypts the group element `m` under `pk` with the given ephemeral
    /// exponent, which the caller must have drawn uniformly from `[1, q)`.
    /// Fails exactly when `m` is outside `[1, p)`.
    pub fn encrypt_from_predefined_randomness(
        m: &BigInt,
        pk: &ElGamalPublicKey,
        randomness: &BigInt,
    ) -> (r: Result<ElGamalCiphertext, ElGamalError>)
        requires
            pk.pp.p.value() >= 2,
            1 <= randomness.value() < pk.pp.q.value(),
        ensures
            match r {
                Ok(ct) => 1 <= m.value() < pk.pp.p.value() && ct.pp.same_group(&pk.pp)
                    && ct.c1.value() == powmod(
                    pk.pp.g.value(),
                    randomness.value(),
                    pk.pp.p.value(),
                ) && ct.c2.value() == mod_product(
                    m.value(),
                    powmod(pk.h.value(), randomness.value(), pk.pp.p.value()),
                    pk.pp.p.value(),
                ),
                Err(e) => e == ElGamalError::EncryptionError && !(1 <= m.value()
                    < pk.pp.p.value()),
            },
    {
        let one = BigInt::one();
        if m.lt_value(&one) || !m.lt_value(&pk.pp.p) {
            return Err(ElGamalError::EncryptionError);
        }
        let c1 = BigInt::mod_pow(&pk.pp.g, randomness, &pk.pp.p);
        let hr = BigInt::mod_pow(&pk.h, randomness, &pk.pp.p);
        let c2 = BigInt::mod_mul(m, &hr, &pk.pp.p);
        Ok(ElGamalCiphertext { c1, c2, pp: pk.pp.clone() })
    }

    /// Encrypts the group element `m` under `pk`, drawing the ephemeral
    /// exponent from `rng`. Fails exactly when `m` is outside `[1, p)`.
    pub fn encrypt<R: Rand>(m: &BigInt, pk: &ElGamalPublicKey, rng: &R) -> (r: Result<
        ElGamalCiphertext,
        ElGamalError,
    >)
        requires
            pk.pp.p.value() >= 2,
            pk.pp.q.value() >= 2,
        ensures
            match r {
                Ok(ct) => 1 <= m.value() < pk.pp.p.value() && ct.pp.same_group(&pk.pp) && (exists|
                    rv: nat,
                |
                    1 <= rv < pk.pp.q.value() && ct.c1.value() == powmod(
                        pk.pp.g.value(),
                        rv,
                        pk.pp.p.value(),
                    ) && ct.c2.value() == mod_product(
                        m.value(),
                        #[trigger] powmod(pk.h.value(), rv, pk.pp.p.value()),
                        pk.pp.p.value(),
                    )),
                Err(e) => e == ElGamalError::EncryptionError && !(1 <= m.value()
                    < pk.pp.p.value()),
            },
    {
        let one = BigInt::one();
        let r_eph = rng.sample_range(&one, &pk.pp.q);
        let res = Self::encrypt_from_predefined_randomness(m, pk, &r_eph);
        proof {
            if res is Ok {
                let rv = r_eph.value();
                assert(powmod(pk.h.value(), rv, pk.pp.p.value()) == powmod(
                    pk.h.value(),
                    rv,
                    pk.pp.p.value(),
                ));
            }
        }
        res
    }

    /// Decrypts a ciphertext with the matching private key: the result is
    /// `c2 * (c1^x)^-1 mod p`. Fails exactly when the ciphertext's
    /// parameters disagree with the key's, or when the shared secret has no
    /// inverse — which cannot happen under validly generated parameters.
    pub fn decrypt(ct: &ElGamalCiphertext, sk: &ElGamalPrivateKey) -> (r: Result<
        BigInt,
        ElGamalError,
    >)
        requires
            sk.pp.p.value() >= 2,
        ensures
            match r {
                Ok(m) => ct.pp.same_group(&sk.pp) && has_inverse(
                    shared_secret(ct.c1.value(), sk.x.value(), sk.pp.p.value()),
                    sk.pp.p.value(),
                ) && m.value() == unmasked(
                    ct.c1.value(),
                    ct.c2.value(),
                    sk.x.value(),
                    sk.pp.p.value(),
                ),
                Err(e) => e == ElGamalError::DecryptionError && (!ct.pp.same_group(&sk.pp)
                    || !has_inverse(
                    shared_secret(ct.c1.value(), sk.x.value(), sk.pp.p.value()),
                    sk.pp.p.value(),
                )),
            },
    {
        if !ct.pp.eq_group(&sk.pp) {
            return Err(ElGamalError::DecryptionError);
        }
        let s = BigInt::mod_pow(&ct.c1, &sk.x, &sk.pp.p);
        match BigInt::mod_inv(&s, &sk.pp.p) {
            None => Err(ElGamalError::DecryptionError),
            Some(inv) => {
                proof {
                    let sv = s.value();
                    let pv = sk.pp.p.value();
                    assert(is_inverse_of(inv.value(), sv, pv));
                    lemma_mod_inverse_is_inverse(sv, pv);
                    lemma_inverse_unique(sv, pv, inv.value(), mod_inverse(sv, pv));
                }
                let m = BigInt::mod_mul(&ct.c2, &inv, &sk.pp.p);
                Ok(m)
            },
        }
    }

    /// Homomorphic combination: multiplies the ciphertexts component-wise,
    /// which multiplies the underlying plaintexts modulo `p`. Fails exactly
    /// when the two ciphertexts were built under different parameters.
    pub fn combine(ct_a: &ElGamalCiphertext, ct_b: &ElGamalCiphertext) -> (r: Result<
        ElGamalCiphertext,
        ElGamalError,
    >)
        requires
            ct_a.pp.p.value() >= 1,
        ensures
            match r {
                Ok(ct) => ct_a.pp.same_group(&ct_b.pp) && ct.pp.same_group(&ct_a.pp)
                    && ct.c1.value() == mod_product(
                    ct_a.c1.value(),
                    ct_b.c1.value(),
                    ct_a.pp.p.value(),
                ) && ct.c2.value() == mod_product(
                    ct_a.c2.value(),
                    ct_b.c2.value(),
                    ct_a.pp.p.value(),
                ),
                Err(e) => e == ElGamalError::HomomorphicError && !ct_a.pp.same_group(&ct_b.pp),
            },
    {
        if !ct_a.pp.eq_group(&ct_b.pp) {
            return Err(ElGamalError::HomomorphicError);
        }
        let c1 = BigInt::mod_mul(&ct_a.c1, &ct_b.c1, &ct_a.pp.p);
        let c2 = BigInt::mod_mul(&ct_a.c2, &ct_b.c2, &ct_a.pp.p);
        Ok(ElGamalCiphertext { c1, c2, pp: ct_a.pp.clone() })
    }
}

impl ExponentElGamal {
    /// Encrypts the exponent-encoded message `m` — the ciphertext carries
    /// `g^m * h^r` — with the given ephemeral exponent from `[1, q)`. Fails
    /// exactly when `m >= q`.
    pub fn encrypt_from_predefined_randomness(
        m: &BigInt,
        pk: &ElGamalPublicKey,
        randomness: &BigInt,
    ) -> (r: Result<ElGamalCiphertext, ElGamalError>)
        requires
            pk.pp.p.value() >= 2,
            1 <= randomness.value() < pk.pp.q.value(),
        ensures
            match r {
                Ok(ct) => m.value() < pk.pp.q.value() && ct.pp.same_group(&pk.pp)
                    && ct.c1.value() == powmod(
                    pk.pp.g.value(),
                    randomness.value(),
                    pk.pp.p.value(),
                ) && ct.c2.value() == mod_product(
                    powmod(pk.pp.g.value(), m.value(), pk.pp.p.value()),
                    powmod(pk.h.value(), randomness.value(), pk.pp.p.value()),
                    pk.pp.p.value(),
                ),
                Err(e) => e == ElGamalError::EncryptionError && m.value() >= pk.pp.q.value(),
            },
    {
        if !m.lt_value(&pk.pp.q) {
            return Err(ElGamalError::EncryptionError);
        }
        let gm = BigInt::mod_pow(&pk.pp.g, m, &pk.pp.p);
        let hr = BigInt::mod_pow(&pk.h, randomness, &pk.pp.p);
        let c1 = BigInt::mod_pow(&pk.pp.g, randomness, &pk.pp.p);
        let c2 = BigInt::mod_mul(&gm, &hr, &pk.pp.p);
        Ok(ElGamalCiphertext { c1, c2, pp: pk.pp.clone() })
    }

    /// Encrypts the exponent-encoded message `m` under `pk`, drawing the
    /// ephemeral exponent from `rng`. Fails exactly when `m >= q`.
    pub fn encrypt<R: Rand>(m: &BigInt, pk: &ElGamalPublicKey, rng: &R) -> (r: Result<
        ElGamalCiphertext,
        ElGamalError,
    >)
        requires
            pk.pp.p.value() >= 2,
            pk.pp.q.value() >= 2,
        ensures
            match r {
                Ok(ct) => m.value() < pk.pp.q.value() && ct.pp.same_group(&pk.pp) && (exists|
                    rv: nat,
                |
                    1 <= rv < pk.pp.q.value() && ct.c1.value() == powmod(
                        pk.pp.g.value(),
                        rv,
                        pk.pp.p.value(),
                    ) && ct.c2.value() == mod_product(
                        powmod(pk.pp.g.value(), m.value(), pk.pp.p.value()),
                        #[trigger] powmod(pk.h.value(), rv, pk.pp.p.value()),
                        pk.pp.p.value(),
                    )),
                Err(e) => e == ElGamalError::EncryptionError && m.value() >= pk.pp.q.value(),
            },
    {
        let one = BigInt::one();
        let r_eph = rng.sample_range(&one, &pk.pp.q);
        let res = Self::encrypt_from_predefined_randomness(m, pk, &r_eph);
        proof {
            if res is Ok {
                let rv = r_eph.value();
                assert(powmod(pk.h.value(), rv, pk.pp.p.value()) == powmod(
                    pk.h.value(),
                    rv,
                    pk.pp.p.value(),
                ));
            }
        }
        res
    }

    /// Homomorphic combination: multiplies the ciphertexts component-wise,
    /// which — under the exponent encoding — adds the underlying plaintexts.
    /// Fails exactly when the ciphertexts were built under different
    /// parameters.
    pub fn combine(ct_a: &ElGamalCiphertext, ct_b: &ElGamalCiphertext) -> (r: Result<
        ElGamalCiphertext,
        ElGamalError,
    >)
        requires
            ct_a.pp.p.value() >= 1,
        ensures
            match r {
                Ok(ct) => ct_a.pp.same_group(&ct_b.pp) && ct.pp.same_group(&ct_a.pp)
                    && ct.c1.value() == mod_product(
                    ct_a.c1.value(),
                    ct_b.c1.value(),
                    ct_a.pp.p.value(),
                ) && ct.c2.value() == mod_product(
                    ct_a.c2.value(),
                    ct_b.c2.value(),
                    ct_a.pp.p.value(),
                ),
                Err(e) => e == ElGamalError::HomomorphicError && !ct_a.pp.same_group(&ct_b.pp),
            },
    {
        if !ct_a.pp.eq_group(&ct_b.pp) {
            return Err(ElGamalError::HomomorphicError);
        }
        let c1 = BigInt::mod_mul(&ct_a.c1, &ct_b.c1, &ct_a.pp.p);
        let c2 = BigInt::mod_mul(&ct_a.c2, &ct_b.c2, &ct_a.pp.p);
        Ok(ElGamalCiphertext { c1, c2, pp: ct_a.pp.clone() })
    }

    /// Decrypts an exponent-encoded ciphertext: uncovers `g^m mod p` and
    /// recovers the least matching exponent below `search_bound` by the
    /// bounded discrete-logarithm solver. Fails exactly when the parameters
    /// disagree, when the shared secret has no inverse, or when no exponent
    /// below the bound matches — exceeding the bound is surfaced the same
    /// way as a wrong key, since the two cannot be told apart.
    pub fn decrypt(ct: &ElGamalCiphertext, sk: &ElGamalPrivateKey, search_bound: u64) -> (r: Result<
        BigInt,
        ElGamalError,
    >)
        requires
            sk.pp.p.value() >= 2,
        ensures
            match r {
                Ok(m) => ct.pp.same_group(&sk.pp) && has_inverse(
                    shared_secret(ct.c1.value(), sk.x.value(), sk.pp.p.value()),
                    sk.pp.p.value(),
                ) && m.value() < search_bound && powmod(
                    sk.pp.g.value(),
                    m.value(),
                    sk.pp.p.value(),
                ) == unmasked(ct.c1.value(), ct.c2.value(), sk.x.value(), sk.pp.p.value()) && (
                forall|k: nat|
                    k < m.value() ==> powmod(sk.pp.g.value(), k, sk.pp.p.value()) != unmasked(
                        ct.c1.value(),
                        ct.c2.value(),
                        sk.x.value(),
                        sk.pp.p.value(),
                    )),
                Err(e) => e == ElGamalError::DecryptionError && (!ct.pp.same_group(&sk.pp)
                    || !has_inverse(
                    shared_secret(ct.c1.value(), sk.x.value(), sk.pp.p.value()),
                    sk.pp.p.value(),
                ) || (forall|k: nat|
                    k < search_bound ==> powmod(sk.pp.g.value(), k, sk.pp.p.value()) != unmasked(
                        ct.c1.value(),
                        ct.c2.value(),
                        sk.x.value(),
                        sk.pp.p.value(),
                    ))),
            },
    {
        if !ct.pp.eq_group(&sk.pp) {
            return Err(ElGamalError::DecryptionError);
        }
        let s = BigInt::mod_pow(&ct.c1, &sk.x, &sk.pp.p);
        match BigInt::mod_inv(&s, &sk.pp.p) {
            None => Err(ElGamalError::DecryptionError),
            Some(inv) => {
                proof {
                    let sv = s.value();
                    let pv = sk.pp.p.value();
                    assert(is_inverse_of(inv.value(), sv, pv));
                    lemma_mod_inverse_is_inverse(sv, pv);
                    lemma_inverse_unique(sv, pv, inv.value(), mod_inverse(sv, pv));
                }
                let target = BigInt::mod_mul(&ct.c2, &inv, &sk.pp.p);
                match dl_solvers::solve(&sk.pp.g, &target, &sk.pp.p, search_bound) {
                    Some(m) => Ok(BigInt::from_u64(m)),
                    None => Err(ElGamalError::DecryptionError),
                }
            },
        }
    }
}

/// Round trip, standard mode: decrypting an encryption of a group element
/// `m` under the matching key gives `m` back, whenever the shared secret is
/// invertible — under a prime modulus it always is. The ciphertext here is
/// written exactly as `encrypt_from_predefined_randomness` builds it from a
/// key pair with `h = g^x mod p`, and the decryption exactly as `decrypt`
/// states it.
pub proof fn lemma_standard_round_trip(g: nat, x: nat, r: nat, m: nat, p: nat)
    requires
        p >= 2,
        1 <= m < p,
        has_inverse(shared_secret(powmod(g, r, p), x, p), p),
    ensures
        unmasked(
            powmod(g, r, p),
            mod_product(m, powmod(powmod(g, x, p), r, p), p),
            x,
            p,
        ) == m,
{
    lemma_powmod_of_powmod(g, r, x, p);
    lemma_powmod_of_powmod(g, x, r, p);
    assert(r * x == x * r) by (nonlinear_arith);
    lemma_mask_cancels(m, shared_secret(powmod(g, r, p), x, p), p);
}

/// Round trip, exponent mode: decrypting an encryption of the encoded
/// message `m` uncovers exactly the group element `g^m mod p`, whenever the
/// shared secret is invertible. Together with the solver's contract, the
/// search recovers `m` itself wherever the powers of `g` below the search
/// bound are pairwise distinct (see `lemma_dlog_unique`).
pub proof fn lemma_exponent_round_trip(g: nat, x: nat, r: nat, m: nat, p: nat)
    requires
        p >= 2,
        has_inverse(shared_secret(powmod(g, r, p), x, p), p),
    ensures
        unmasked(
            powmod(g, r, p),
            mod_product(powmod(g, m, p), powmod(powmod(g, x, p), r, p), p),
            x,
            p,
        ) == powmod(g, m, p),
{
    lemma_powmod_of_powmod(g, r, x, p);
    lemma_powmod_of_powmod(g, x, r, p);
    assert(r * x == x * r) by (nonlinear_arith);
    lemma_powmod_below(g, m, p);
    lemma_mask_cancels(powmod(g, m, p), shared_secret(powmod(g, r, p), x, p), p);
}

/// Homomorphism, standard mode: combining encryptions of `m_a` and `m_b`
/// and decrypting the combination gives `m_a * m_b mod p`, whenever the
/// combined shared secret is invertible. Ciphertexts and decryption are
/// written exactly as `encrypt_from_predefined_randomness`, `combine` and
/// `decrypt` state them.
pub proof fn lemma_standard_homomorphism(
    g: nat,
    x: nat,
    ra: nat,
    rb: nat,
    ma: nat,
    mb: nat,
    p: nat,
)
    requires
        p >= 2,
        has_inverse(
            shared_secret(mod_product(powmod(g, ra, p), powmod(g, rb, p), p), x, p),
            p,
        ),
    ensures
        unmasked(
            mod_product(powmod(g, ra, p), powmod(g, rb, p), p),
            mod_product(
                mod_product(ma, powmod(powmod(g, x, p), ra, p), p),
                mod_product(mb, powmod(powmod(g, x, p), rb, p), p),
                p,
            ),
            x,
            p,
        ) == mod_product(ma, mb, p),
{
    lemma_mod_product_pows(g, ra, rb, p);
    lemma_powmod_of_powmod(g, ra + rb, x, p);
    lemma_powmod_of_powmod(g, x, ra, p);
    lemma_powmod_of_powmod(g, x, rb, p);
    lemma_mod_product_reorder(ma, powmod(g, x * ra, p), mb, powmod(g, x * rb, p), p);
    lemma_mod_product_pows(g, x * ra, x * rb, p);
    assert((ra + rb) * x == x * ra + x * rb) by (nonlinear_arith);
    lemma_mod_bound((ma * mb) as int, p as int);
    lemma_mask_cancels(
        mod_product(ma, mb, p),
        shared_secret(mod_product(powmod(g, ra, p), powmod(g, rb, p), p), x, p),
        p,
    );
}

/// Homomorphism, exponent mode: combining encryptions of `m_a` and `m_b`
/// and decrypting the combination uncovers `g^(m_a + m_b) mod p` — the
/// plaintexts add. With the solver's contract and `lemma_dlog_unique`, the
/// bounded search then returns `m_a + m_b` whenever it lies below the
/// search bound.
pub proof fn lemma_exponent_homomorphism(
    g: nat,
    x: nat,
    ra: nat,
    rb: nat,
    ma: nat,
    mb: nat,
    p: nat,
)
    requires
        p >= 2,
        has_inverse(
            shared_secret(mod_product(powmod(g, ra, p), powmod(g, rb, p), p), x, p),
            p,
        ),
    ensures
        unmasked(
            mod_product(powmod(g, ra, p), powmod(g, rb, p), p),
            mod_product(
                mod_product(powmod(g, ma, p), powmod(powmod(g, x, p), ra, p), p),
                mod_product(powmod(g, mb, p), powmod(powmod(g, x, p), rb, p), p),
                p,
            ),
            x,
            p,
        ) == powmod(g, ma + mb, p),
{
    lemma_mod_product_pows(g, ra, rb, p);
    lemma_powmod_of_powmod(g, ra + rb, x, p);
    lemma_powmod_of_powmod(g, x, ra, p);
    lemma_powmod_of_powmod(g, x, rb, p);
    lemma_mod_product_reorder(
        powmod(g, ma, p),
        powmod(g, x * ra, p),
        powmod(g, mb, p),
        powmod(g, x * rb, p),
        p,
    );
    lemma_mod_product_pows(g, ma, mb, p);
    lemma_mod_product_pows(g, x * ra, x * rb, p);
    assert((ra + rb) * x == x * ra + x * rb) by (nonlinear_arith);
    lemma_powmod_below(g, ma + mb, p);
    lemma_mask_cancels(
        powmod(g, ma + mb, p),
        shared_secret(mod_product(powmod(g, ra, p), powmod(g, rb, p), p), x, p),
        p,
    );
}

/// Discrete-log recovery is exact: where the powers of `g` are pairwise
/// distinct below `bound` — as they are when `g` has order at least `bound`
/// — the exponent `m` is the only one below the bound whose power equals
/// `g^m mod p`, so the bounded solver must return exactly `m`.
pub proof fn lemma_dlog_unique(g: nat, p: nat, m: nat, bound: nat)
    requires
        m < bound,
        forall|a: nat, b: nat| a < b && b < bound ==> powmod(g, a, p) != powmod(g, b, p),
    ensures
        forall|k: nat| k < bound ==> (powmod(g, k, p) == powmod(g, m, p) <==> k == m),
{
    assert forall|k: nat| k < bound implies (powmod(g, k, p) == powmod(g, m, p) <==> k
        == m) by {
        if k < m {
            assert(powmod(g, k, p) != powmod(g, m, p));
        } else if m < k {
            assert(powmod(g, m, p) != powmod(g, k, p));
        }
    }
}

/// An exponent at or above the bound is reported not-found: where the
/// powers of `g` are pairwise distinct up to `m`, no exponent below
/// `bound <= m` has the power `g^m mod p`, so the bounded solver must
/// report that nothing below the bound matches.
pub proof fn lemma_dlog_out_of_range(g: nat, p: nat, m: nat, bound: nat)
    requires
        bound <= m,
        forall|a: nat, b: nat| a < b && b <= m ==> powmod(g, a, p) != powmod(g, b, p),
    ensures
        forall|k: nat| k < bound ==> powmod(g, k, p) != powmod(g, m, p),
{
    assert forall|k: nat| k < bound implies powmod(g, k, p) != powmod(g, m, p) by {
        assert(k < m && m <= m);
    }
}

} // verus!
