//! The mathematical model: modular products, modular powers, modular
//! inverses and primality, with the lemmas about them that the engine's
//! contracts rest on.

use vstd::arithmetic::div_mod::lemma_mod_bound;
use vstd::arithmetic::div_mod::lemma_mul_mod_noop_general;
use vstd::arithmetic::div_mod::lemma_mul_mod_noop_left;
use vstd::arithmetic::div_mod::lemma_mul_mod_noop_right;
use vstd::arithmetic::div_mod::lemma_mod_twice;
use vstd::arithmetic::div_mod::lemma_small_mod;
use vstd::arithmetic::mul::lemma_mul_is_associative;
use vstd::arithmetic::power::lemma_pow_adds;
use vstd::arithmetic::power::lemma_pow_mod_noop;
use vstd::arithmetic::power::lemma_pow_multiplies;
use vstd::arithmetic::power::lemma_pow1;
use vstd::arithmetic::power::pow;
use vstd::calc;
use vstd::prelude::*;

verus! {

/// `(a * b) mod m`.
pub open spec fn mod_product(a: nat, b: nat, m: nat) -> nat
    recommends
        m > 0,
{
    (a * b) % m
}

/// `b ^ e mod m`.
pub open spec fn powmod(b: nat, e: nat, m: nat) -> nat
    recommends
        m > 0,
{
    (pow(b as int, e) % (m as int)) as nat
}

/// `i` is the inverse of `a` modulo `m`.
pub open spec fn is_inverse_of(i: nat, a: nat, m: nat) -> bool {
    i < m && mod_product(a, i, m) == 1
}

/// `a` is invertible modulo `m`.
pub open spec fn has_inverse(a: nat, m: nat) -> bool {
    exists|i: nat| is_inverse_of(i, a, m)
}

/// The inverse of `a` modulo `m`, where one exists.
pub open spec fn mod_inverse(a: nat, m: nat) -> nat {
    choose|i: nat| is_inverse_of(i, a, m)
}

/// `n` is prime.
pub open spec fn is_prime(n: nat) -> bool {
    n >= 2 && forall|d: nat| 1 < d < n ==> #[trigger] (n % d) != 0
}

/// The power of a non-negative base is non-negative.
pub proof fn lemma_pow_nonneg(b: nat, e: nat)
    ensures
        pow(b as int, e) >= 0,
    decreases e,
{
    reveal(pow);
    if e > 0 {
        lemma_pow_nonneg(b, (e - 1) as nat);
    }
}

/// A modular power lies below the modulus.
pub proof fn lemma_powmod_below(b: nat, e: nat, m: nat)
    requires
        m >= 1,
    ensures
        powmod(b, e, m) < m,
{
    lemma_mod_bound(pow(b as int, e), m as int);
}

/// Where an inverse exists, `mod_inverse` designates one.
pub proof fn lemma_mod_inverse_is_inverse(a: nat, m: nat)
    requires
        has_inverse(a, m),
    ensures
        is_inverse_of(mod_inverse(a, m), a, m),
{
}

/// An inverse modulo `m` is unique: any two values below `m` whose product
/// with `a` is `1 mod m` coincide.
pub proof fn lemma_inverse_unique(a: nat, m: nat, i: nat, j: nat)
    requires
        m >= 1,
        is_inverse_of(i, a, m),
        is_inverse_of(j, a, m),
    ensures
        i == j,
{
    let ai = a as int;
    let ii = i as int;
    let ji = j as int;
    let mi = m as int;
    lemma_small_mod(i, m);
    lemma_small_mod(j, m);
    assert((ai * ji) % mi == 1);
    assert((ai * ii) % mi == 1);
    calc! {
        (==)
        ii % mi; {
            lemma_small_mod(i, m);
        }
        ii; {}
        (ii * 1) % mi; {}
        (ii * ((ai * ji) % mi)) % mi; {
            lemma_mul_mod_noop_right(ii, ai * ji, mi);
        }
        (ii * (ai * ji)) % mi; {
            lemma_mul_is_associative(ii, ai, ji);
        }
        ((ii * ai) * ji) % mi; {
            lemma_mul_mod_noop_left(ii * ai, ji, mi);
        }
        (((ii * ai) % mi) * ji) % mi; {
            assert(ii * ai == ai * ii) by (nonlinear_arith);
        }
        (((ai * ii) % mi) * ji) % mi; {}
        (1 * ji) % mi; {}
        ji % mi; {
            lemma_small_mod(j, m);
        }
        ji;
    }
}

/// Multiplying by an invertible mask and then by its inverse gives the
/// masked value back.
pub proof fn lemma_mask_cancels(mval: nat, s: nat, m: nat)
    requires
        m >= 1,
        mval < m,
        has_inverse(s, m),
    ensures
        mod_product(mod_product(mval, s, m), mod_inverse(s, m), m) == mval,
{
    let i = mod_inverse(s, m);
    lemma_mod_inverse_is_inverse(s, m);
    let vi = mval as int;
    let si = s as int;
    let ivi = i as int;
    let mi = m as int;
    calc! {
        (==)
        (((vi * si) % mi) * ivi) % mi; {
            lemma_mul_mod_noop_left(vi * si, ivi, mi);
        }
        ((vi * si) * ivi) % mi; {
            lemma_mul_is_associative(vi, si, ivi);
        }
        (vi * (si * ivi)) % mi; {
            lemma_mul_mod_noop_right(vi, si * ivi, mi);
        }
        (vi * ((si * ivi) % mi)) % mi; {}
        (vi * 1) % mi; {}
        vi % mi; {
            lemma_small_mod(mval, m);
        }
        vi;
    }
}

/// One more multiplication by the base advances a modular power by one step.
pub proof fn lemma_powmod_step(b: nat, e: nat, m: nat)
    requires
        m >= 1,
    ensures
        powmod(b, e + 1, m) == mod_product(powmod(b, e, m), b, m),
{
    let bi = b as int;
    let mi = m as int;
    lemma_pow_nonneg(b, e);
    lemma_mod_bound(pow(bi, e), mi);
    calc! {
        (==)
        pow(bi, e + 1) % mi; {
            lemma_pow_adds(bi, e, 1nat);
            lemma_pow1(bi);
        }
        (pow(bi, e) * bi) % mi; {
            lemma_mul_mod_noop_left(pow(bi, e), bi, mi);
        }
        ((pow(bi, e) % mi) * bi) % mi;
    }
}

/// A modular power of a modular power is the modular power of the product
/// of the exponents.
pub proof fn lemma_powmod_of_powmod(b: nat, e1: nat, e2: nat, m: nat)
    requires
        m >= 1,
    ensures
        powmod(powmod(b, e1, m), e2, m) == powmod(b, e1 * e2, m),
{
    let bi = b as int;
    let mi = m as int;
    lemma_pow_nonneg(b, e1);
    lemma_mod_bound(pow(bi, e1), mi);
    calc! {
        (==)
        pow(pow(bi, e1) % mi, e2) % mi; {
            lemma_pow_mod_noop(pow(bi, e1), e2, mi);
        }
        pow(pow(bi, e1), e2) % mi; {
            lemma_pow_multiplies(bi, e1, e2);
        }
        pow(bi, e1 * e2) % mi;
    }
}

/// The modular product of two modular powers of one base adds the exponents.
pub proof fn lemma_mod_product_pows(b: nat, e1: nat, e2: nat, m: nat)
    requires
        m >= 1,
    ensures
        mod_product(powmod(b, e1, m), powmod(b, e2, m), m) == powmod(b, e1 + e2, m),
{
    let bi = b as int;
    let mi = m as int;
    lemma_pow_nonneg(b, e1);
    lemma_pow_nonneg(b, e2);
    lemma_mod_bound(pow(bi, e1), mi);
    lemma_mod_bound(pow(bi, e2), mi);
    calc! {
        (==)
        ((pow(bi, e1) % mi) * (pow(bi, e2) % mi)) % mi; {
            lemma_mul_mod_noop_general(pow(bi, e1), pow(bi, e2), mi);
        }
        (pow(bi, e1) * pow(bi, e2)) % mi; {
            lemma_pow_adds(bi, e1, e2);
        }
        pow(bi, e1 + e2) % mi;
    }
}

/// Inverses lift to powers: where `a * b ≡ 1 (mod m)`, also
/// `a^i * b^i ≡ 1 (mod m)`.
pub proof fn lemma_inverse_pow(a: nat, b: nat, i: nat, m: nat)
    requires
        m >= 2,
        mod_product(a, b, m) == 1,
    ensures
        mod_product(powmod(a, i, m), powmod(b, i, m), m) == 1,
    decreases i,
{
    if i == 0 {
        reveal(pow);
        lemma_small_mod(1, m);
        assert(powmod(a, 0, m) == 1);
        assert(powmod(b, 0, m) == 1);
    } else {
        let k = (i - 1) as nat;
        lemma_inverse_pow(a, b, k, m);
        lemma_powmod_step(a, k, m);
        lemma_powmod_step(b, k, m);
        lemma_mod_product_reorder(powmod(a, k, m), a, powmod(b, k, m), b, m);
        // mod_product(1, mod_product(a, b, m), m) == 1 % m == 1
        lemma_small_mod(1, m);
        assert(mod_product(1, mod_product(a, b, m), m) == mod_product(a, b, m) % m);
        lemma_mod_twice((a * b) as int, m as int);
    }
}

/// The giant-step test is exact: where `f` inverts `g^step` modulo `m` and
/// the target `t` is reduced, `t * f^i ≡ g^j` holds exactly when
/// `t ≡ g^(i * step + j)`.
pub proof fn lemma_giant_step(g: nat, f: nat, t: nat, i: nat, j: nat, step: nat, m: nat)
    requires
        m >= 2,
        t < m,
        mod_product(powmod(g, step, m), f, m) == 1,
    ensures
        (mod_product(t, powmod(f, i, m), m) == powmod(g, j, m)) <==> (t == powmod(
            g,
            i * step + j,
            m,
        )),
{
    let gs = powmod(g, step, m);
    let ui = powmod(gs, i, m);
    let fi = powmod(f, i, m);
    lemma_inverse_pow(gs, f, i, m);
    lemma_powmod_of_powmod(g, step, i, m);
    assert(step * i == i * step) by (nonlinear_arith);
    // so ui == powmod(g, i * step, m), and mod_product(ui, fi, m) == 1
    let ti = t as int;
    let uii = ui as int;
    let fii = fi as int;
    let mi = m as int;
    lemma_powmod_below(g, j, m);
    let gj = powmod(g, j, m);
    let gji = gj as int;
    // Forward: from (t * fi) % m == gj derive t == powmod(g, i * step + j, m).
    calc! {
        (==)
        ((((ti * fii) % mi) * uii) % mi); {
            lemma_mul_mod_noop_left(ti * fii, uii, mi);
        }
        (((ti * fii) * uii) % mi); {
            lemma_mul_is_associative(ti, fii, uii);
        }
        ((ti * (fii * uii)) % mi); {
            lemma_mul_mod_noop_right(ti, fii * uii, mi);
        }
        ((ti * ((fii * uii) % mi)) % mi); {
            assert(fii * uii == uii * fii) by (nonlinear_arith);
        }
        ((ti * ((uii * fii) % mi)) % mi); {}
        ((ti * 1) % mi); {
            lemma_small_mod(t, m);
        }
        ti;
    }
    lemma_mod_product_pows(g, j, i * step, m);
    assert(j + i * step == i * step + j);
    if mod_product(t, fi, m) == gj {
        // (gj * ui) % m == ((t * fi) % m * ui) % m == t
        assert(t == mod_product(gj, ui, m));
        assert(t == powmod(g, i * step + j, m));
    }
    if t == powmod(g, i * step + j, m) {
        // t == (gj * ui) % m, so (t * fi) % m == (gj * (ui * fi)) % m == gj
        assert(t == mod_product(gj, ui, m));
        calc! {
            (==)
            ((((gji * uii) % mi) * fii) % mi); {
                lemma_mul_mod_noop_left(gji * uii, fii, mi);
            }
            (((gji * uii) * fii) % mi); {
                lemma_mul_is_associative(gji, uii, fii);
            }
            ((gji * (uii * fii)) % mi); {
                lemma_mul_mod_noop_right(gji, uii * fii, mi);
            }
            ((gji * ((uii * fii) % mi)) % mi); {}
            ((gji * 1) % mi); {
                lemma_small_mod(gj, m);
            }
            gji;
        }
        assert(mod_product(t, fi, m) == gj);
    }
}

/// Modular products may be regrouped pairwise.
pub proof fn lemma_mod_product_reorder(a: nat, b: nat, c: nat, d: nat, m: nat)
    requires
        m >= 1,
    ensures
        mod_product(mod_product(a, b, m), mod_product(c, d, m), m) == mod_product(
            mod_product(a, c, m),
            mod_product(b, d, m),
            m,
        ),
{
    let ai = a as int;
    let bi = b as int;
    let ci = c as int;
    let di = d as int;
    let mi = m as int;
    calc! {
        (==)
        (((ai * bi) % mi) * ((ci * di) % mi)) % mi; {
            lemma_mul_mod_noop_general(ai * bi, ci * di, mi);
        }
        ((ai * bi) * (ci * di)) % mi; {
            assert((ai * bi) * (ci * di) == (ai * ci) * (bi * di)) by (nonlinear_arith);
        }
        ((ai * ci) * (bi * di)) % mi; {
            lemma_mul_mod_noop_general(ai * ci, bi * di, mi);
        }
        (((ai * ci) % mi) * ((bi * di) % mi)) % mi;
    }
}

} // verus!
