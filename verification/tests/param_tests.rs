//! Tests of parameter validation, the registry, safe-prime generation, the
//! randomness source, and the number type itself.

use elgamal::groups::GroupId;
use elgamal::BigInt;
use elgamal::BigIntRand;
use elgamal::ElGamal;
use elgamal::ElGamalError;
use elgamal::ElGamalKeyPair;
use elgamal::ElGamalPP;
use elgamal::Rand;

fn n(v: u64) -> BigInt {
    BigInt::from_u64(v)
}

#[test]
fn validate_accepts_registry_entries() {
    let ids = [GroupId::Test256, GroupId::Bits1024, GroupId::Bits2048];
    for id in ids {
        let pp = ElGamalPP::from_registry(id);
        assert!(pp.validate().is_ok());
    }
}

#[test]
fn validate_accepts_small_safe_prime_group() {
    let pp = ElGamalPP { g: n(2), q: n(11), p: n(23) };
    assert!(pp.validate().is_ok());
}

#[test]
fn validate_rejects_p_not_twice_q_plus_one() {
    let pp = ElGamalPP { g: n(2), q: n(7), p: n(23) };
    assert_eq!(pp.validate().unwrap_err(), ElGamalError::ParamError);
}

#[test]
fn validate_rejects_generator_of_wrong_order() {
    // 5 generates the full group modulo 23: 5^11 mod 23 = 22 != 1.
    let pp = ElGamalPP { g: n(5), q: n(11), p: n(23) };
    assert_eq!(pp.validate().unwrap_err(), ElGamalError::ParamError);
}

#[test]
fn validate_rejects_trivial_or_oversized_generator() {
    let pp = ElGamalPP { g: n(1), q: n(11), p: n(23) };
    assert_eq!(pp.validate().unwrap_err(), ElGamalError::ParamError);
    let pp = ElGamalPP { g: n(24), q: n(11), p: n(23) };
    assert_eq!(pp.validate().unwrap_err(), ElGamalError::ParamError);
}

#[test]
fn validate_rejects_composite_p_or_q() {
    // 27 = 2 * 13 + 1 but 27 is composite.
    let pp = ElGamalPP { g: n(4), q: n(13), p: n(27) };
    assert_eq!(pp.validate().unwrap_err(), ElGamalError::ParamError);
    // 15 is composite: p = 31 is prime but q = 15 is not.
    let pp = ElGamalPP { g: n(4), q: n(15), p: n(31) };
    assert_eq!(pp.validate().unwrap_err(), ElGamalError::ParamError);
}

#[test]
fn generate_produces_validating_parameters() {
    let rng = BigIntRand {};
    let pp = ElGamalPP::generate(16, &rng).unwrap();
    assert!(pp.validate().is_ok());
    // The generated group supports a full round trip.
    let kp = ElGamalKeyPair::generate(&pp, &rng);
    let ct = ElGamal::encrypt(&n(2), &kp.pk, &rng).unwrap();
    let m = ElGamal::decrypt(&ct, &kp.sk).unwrap();
    assert!(m.eq_value(&n(2)));
}

#[test]
fn registry_groups_differ_by_level() {
    let small = ElGamalPP::from_registry(GroupId::Test256);
    let large = ElGamalPP::from_registry(GroupId::Bits1024);
    assert!(small.p.lt_value(&large.p));
}

#[test]
fn sample_below_stays_below_upper() {
    let rng = BigIntRand {};
    let upper = n(10);
    for _ in 0..100 {
        let r = rng.sample_below(&upper);
        assert!(r.lt_value(&upper));
    }
}

#[test]
fn sample_range_stays_within_range() {
    let rng = BigIntRand {};
    let lower = n(5);
    let upper = n(17);
    for _ in 0..100 {
        let r = rng.sample_range(&lower, &upper);
        assert!(!r.lt_value(&lower));
        assert!(r.lt_value(&upper));
    }
}

#[test]
fn sample_stays_below_bit_bound() {
    let rng = BigIntRand {};
    let bound = n(256);
    for _ in 0..100 {
        let r = rng.sample(8);
        assert!(r.lt_value(&bound));
    }
}

#[test]
fn byte_representation_round_trips() {
    let v = BigInt::from_bytes(vec![1, 0]);
    assert!(v.eq_value(&n(256)));
    let zero = BigInt::from_bytes(Vec::new());
    assert!(zero.eq_value(&n(0)));
    let big = BigInt::from_bytes(vec![0xFF, 0xFF, 0xFF, 0xFF, 0xFF, 0xFF, 0xFF, 0xFF]);
    assert!(big.eq_value(&n(u64::MAX)));
    let back = BigInt::from_bytes(big.to_bytes());
    assert!(back.eq_value(&big));
}

#[test]
fn parity_and_small_constants() {
    assert!(n(4).is_even());
    assert!(!n(7).is_even());
    assert!(BigInt::zero().is_even());
    assert!(BigInt::zero().eq_value(&n(0)));
    assert!(BigInt::one().eq_value(&n(1)));
    assert!(n(3).plus(&n(4)).eq_value(&n(7)));
    assert!(n(3).lt_value(&n(4)));
    assert!(!n(4).lt_value(&n(4)));
}

#[test]
fn modular_arithmetic_matches_hand_computation() {
    // 8^4 mod 23 = 2, 6 * 2 mod 23 = 12, inverse of 2 mod 23 is 12.
    let p = n(23);
    assert!(BigInt::mod_pow(&n(8), &n(4), &p).eq_value(&n(2)));
    assert!(BigInt::mod_mul(&n(6), &n(2), &p).eq_value(&n(12)));
    assert!(BigInt::mod_inv(&n(2), &p).unwrap().eq_value(&n(12)));
    // 0 has no inverse modulo 23; 2 has none modulo 22.
    assert!(BigInt::mod_inv(&n(0), &p).is_none());
    assert!(BigInt::mod_inv(&n(2), &n(22)).is_none());
}
