//! Bounded discrete-logarithm recovery.
//!
//! Exponent-encoded ElGamal decryption uncovers `g^m mod p` and must recover
//! the exponent `m`. Searching the whole subgroup is infeasible by design;
//! the solver searches only `[0, bound)` by baby-step/giant-step — a table
//! of the powers `g^j` for `j` below `step = ceil(sqrt(bound))`, then at
//! most `step` giant strides by `g^-step` — so its cost is `O(sqrt(bound))`
//! in time and space. The bound is a first-class parameter: it is the
//! caller's explicit plaintext-size contract.

use vstd::prelude::*;

use crate::arith::BigInt;
use crate::specs::lemma_giant_step;
use crate::specs::lemma_powmod_below;
use crate::specs::lemma_powmod_step;
use crate::specs::mod_product;
use crate::specs::powmod;

verus! {

/// Search bounds at or above `2^40` — a table of over a million entries —
/// fall back to the sequential scan; they are far beyond the intended
/// message spaces anyway.
const GIANT_STEP_LIMIT: u64 = 0x100_0000_0000;

/// Finds the least `m` in `[0, bound)` with `g^m ≡ target (mod p)`, or
/// reports that no exponent below the bound matches.
pub fn solve(g: &BigInt, target: &BigInt, p: &BigInt, bound: u64) -> (r: Option<u64>)
    requires
        p.value() >= 2,
    ensures
        match r {
            Some(m) => m < bound && powmod(g.value(), m as nat, p.value()) == target.value()
                && (forall|k: nat|
                k < m ==> powmod(g.value(), k, p.value()) != target.value()),
            None => forall|k: nat|
                k < bound ==> powmod(g.value(), k, p.value()) != target.value(),
        },
{
    if bound == 0 {
        return None;
    }
    if bound >= GIANT_STEP_LIMIT {
        return solve_scan(g, target, p, bound);
    }
    if !target.lt_value(p) {
        proof {
            assert forall|k: nat| k < bound implies powmod(g.value(), k, p.value())
                != target.value() by {
                lemma_powmod_below(g.value(), k, p.value());
            }
        }
        return None;
    }
    // step = ceil(sqrt(bound)): the smallest step with step * step >= bound;
    // sq tracks its square.
    let mut step: u64 = 1;
    let mut sq: u64 = 1;
    while sq < bound
        invariant
            bound < GIANT_STEP_LIMIT,
            1 <= step <= bound,
            step <= 0x10_0000,
            sq == step * step,
        decreases bound - step,
    {
        proof {
            assert(step < 0x10_0000 && step < bound && (step + 1) * (step + 1) == step * step + 2
                * step + 1) by (nonlinear_arith)
                requires
                    1 <= step,
                    step * step < bound,
                    bound < 0x100_0000_0000,
            ;
        }
        sq = sq + 2 * step + 1;
        step = step + 1;
    }
    // Baby steps: the powers g^j mod p for j in [0, step).
    let zero = BigInt::zero();
    let mut baby: Vec<BigInt> = Vec::new();
    let mut cur = BigInt::mod_pow(g, &zero, p);
    let mut j: u64 = 0;
    while j < step
        invariant
            p.value() >= 2,
            j <= step,
            step <= 0x10_0000,
            baby@.len() == j,
            cur.value() == powmod(g.value(), j as nat, p.value()),
            forall|jj: int|
                0 <= jj < j ==> baby@[jj].value() == powmod(g.value(), jj as nat, p.value()),
        decreases step - j,
    {
        baby.push(cur.clone());
        proof {
            lemma_powmod_step(g.value(), j as nat, p.value());
        }
        cur = BigInt::mod_mul(&cur, g, p);
        j = j + 1;
    }
    // The giant stride: the inverse of g^step modulo p. Where none exists —
    // degenerate parameters — fall back to the sequential scan.
    let step_num = BigInt::from_u64(step);
    let gs = BigInt::mod_pow(g, &step_num, p);
    let f = match BigInt::mod_inv(&gs, p) {
        Some(f) => f,
        None => {
            return solve_scan(g, target, p, bound);
        },
    };
    // Giant steps: test target * f^i against the table; base tracks i * step.
    let mut fi = BigInt::mod_pow(&f, &zero, p);
    let mut i: u64 = 0;
    let mut base: u64 = 0;
    while base < bound
        invariant
            p.value() >= 2,
            target.value() < p.value(),
            bound < GIANT_STEP_LIMIT,
            1 <= step <= 0x10_0000,
            base == i * step,
            i <= base,
            base < bound + step,
            fi.value() == powmod(f.value(), i as nat, p.value()),
            mod_product(powmod(g.value(), step as nat, p.value()), f.value(), p.value()) == 1,
            baby@.len() == step,
            forall|jj: int|
                0 <= jj < step ==> baby@[jj].value() == powmod(g.value(), jj as nat, p.value()),
            forall|k: nat| k < base ==> powmod(g.value(), k, p.value()) != target.value(),
        decreases bound + step - base,
    {
        let y = BigInt::mod_mul(target, &fi, p);
        let mut j: u64 = 0;
        while j < step
            invariant
                p.value() >= 2,
                target.value() < p.value(),
                bound < GIANT_STEP_LIMIT,
                1 <= step <= 0x10_0000,
                base == i * step,
                base < bound,
                j <= step,
                y.value() == mod_product(
                    target.value(),
                    powmod(f.value(), i as nat, p.value()),
                    p.value(),
                ),
                mod_product(powmod(g.value(), step as nat, p.value()), f.value(), p.value())
                    == 1,
                baby@.len() == step,
                forall|jj: int|
                    0 <= jj < step ==> baby@[jj].value() == powmod(
                        g.value(),
                        jj as nat,
                        p.value(),
                    ),
                forall|k: nat| k < base + j ==> powmod(g.value(), k, p.value()) != target.value(),
            decreases step - j,
        {
            proof {
                lemma_giant_step(
                    g.value(),
                    f.value(),
                    target.value(),
                    i as nat,
                    j as nat,
                    step as nat,
                    p.value(),
                );
            }
            if y.eq_value(&baby[j as usize]) {
                let m = base + j;
                if m < bound {
                    return Some(m);
                }
                proof {
                    assert forall|k: nat| k < bound implies powmod(g.value(), k, p.value())
                        != target.value() by {
                        if base + j <= k {
                            assert(k < bound <= base + j);
                        }
                    }
                }
                return None;
            }
            j = j + 1;
        }
        proof {
            lemma_powmod_step(f.value(), i as nat, p.value());
            assert((i + 1) * step == i * step + step) by (nonlinear_arith);
        }
        fi = BigInt::mod_mul(&fi, &f, p);
        base = base + step;
        i = i + 1;
    }
    None
}

/// The sequential fallback: walks the powers of `g` one by one. Same
/// contract as `solve`; used where the giant stride cannot be formed or the
/// bound is out of the table's reach.
fn solve_scan(g: &BigInt, target: &BigInt, p: &BigInt, bound: u64) -> (r: Option<u64>)
    requires
        p.value() >= 2,
    ensures
        match r {
            Some(m) => m < bound && powmod(g.value(), m as nat, p.value()) == target.value()
                && (forall|k: nat|
                k < m ==> powmod(g.value(), k, p.value()) != target.value()),
            None => forall|k: nat|
                k < bound ==> powmod(g.value(), k, p.value()) != target.value(),
        },
{
    let zero = BigInt::zero();
    let mut cur = BigInt::mod_pow(g, &zero, p);
    let mut i: u64 = 0;
    while i < bound
        invariant
            p.value() >= 2,
            i <= bound,
            cur.value() == powmod(g.value(), i as nat, p.value()),
            forall|k: nat| k < i ==> powmod(g.value(), k, p.value()) != target.value(),
        decreases bound - i,
    {
        if cur.eq_value(target) {
            return Some(i);
        }
        proof {
            lemma_powmod_step(g.value(), i as nat, p.value());
        }
        cur = BigInt::mod_mul(&cur, g, p);
        i = i + 1;
    }
    None
}

} // verus!
