//! End-to-end tests of the encryption engine on concrete groups, both the
//! small hand-checked group `(p, q, g) = (23, 11, 2)` and the registry's
//! 256-bit test group.

use elgamal::dl_solvers;
use elgamal::groups::GroupId;
use elgamal::BigInt;
use elgamal::BigIntRand;
use elgamal::ElGamal;
use elgamal::ElGamalError;
use elgamal::ElGamalKeyPair;
use elgamal::ElGamalPP;
use elgamal::ElGamalPrivateKey;
use elgamal::ElGamalPublicKey;
use elgamal::ExponentElGamal;

fn n(v: u64) -> BigInt {
    BigInt::from_u64(v)
}

/// The small hand-checked group: p = 23 = 2 * 11 + 1, g = 2 of order 11.
fn small_group() -> ElGamalPP {
    ElGamalPP { g: n(2), q: n(11), p: n(23) }
}

fn keys_for(pp: &ElGamalPP, x: u64) -> (ElGamalPublicKey, ElGamalPrivateKey) {
    let h = BigInt::mod_pow(&pp.g, &n(x), &pp.p);
    (
        ElGamalPublicKey { pp: pp.clone(), h },
        ElGamalPrivateKey { pp: pp.clone(), x: n(x) },
    )
}

#[test]
fn standard_round_trip_small_group() {
    let pp = small_group();
    let (pk, sk) = keys_for(&pp, 3);
    let ct = ElGamal::encrypt_from_predefined_randomness(&n(6), &pk, &n(4)).unwrap();
    // c1 = 2^4 mod 23 = 16, c2 = 6 * 8^4 mod 23 = 12
    assert!(ct.c1.eq_value(&n(16)));
    assert!(ct.c2.eq_value(&n(12)));
    let m = ElGamal::decrypt(&ct, &sk).unwrap();
    assert!(m.eq_value(&n(6)));
}

#[test]
fn standard_round_trip_with_rng() {
    let pp = ElGamalPP::from_registry(GroupId::Test256);
    let rng = BigIntRand {};
    let kp = ElGamalKeyPair::generate(&pp, &rng);
    let ct = ElGamal::encrypt(&n(123456789), &kp.pk, &rng).unwrap();
    let m = ElGamal::decrypt(&ct, &kp.sk).unwrap();
    assert!(m.eq_value(&n(123456789)));
}

#[test]
fn standard_encrypt_rejects_out_of_range_message() {
    let pp = small_group();
    let (pk, _) = keys_for(&pp, 3);
    let r = ElGamal::encrypt_from_predefined_randomness(&n(0), &pk, &n(4));
    assert_eq!(r.unwrap_err(), ElGamalError::EncryptionError);
    let r = ElGamal::encrypt_from_predefined_randomness(&n(23), &pk, &n(4));
    assert_eq!(r.unwrap_err(), ElGamalError::EncryptionError);
    let r = ElGamal::encrypt_from_predefined_randomness(&n(22), &pk, &n(4));
    assert!(r.is_ok());
}

#[test]
fn standard_homomorphism_multiplies_plaintexts() {
    let pp = small_group();
    let (pk, sk) = keys_for(&pp, 3);
    let ct_a = ElGamal::encrypt_from_predefined_randomness(&n(3), &pk, &n(2)).unwrap();
    let ct_b = ElGamal::encrypt_from_predefined_randomness(&n(5), &pk, &n(4)).unwrap();
    let ct = ElGamal::combine(&ct_a, &ct_b).unwrap();
    let m = ElGamal::decrypt(&ct, &sk).unwrap();
    // 3 * 5 mod 23 = 15
    assert!(m.eq_value(&n(15)));
}

#[test]
fn standard_decrypt_rejects_foreign_parameters() {
    let pp = small_group();
    let other = ElGamalPP::from_registry(GroupId::Test256);
    let (pk, _) = keys_for(&pp, 3);
    let (_, sk_other) = keys_for(&other, 3);
    let ct = ElGamal::encrypt_from_predefined_randomness(&n(6), &pk, &n(4)).unwrap();
    let r = ElGamal::decrypt(&ct, &sk_other);
    assert_eq!(r.unwrap_err(), ElGamalError::DecryptionError);
}

#[test]
fn exponent_scenario_registry_group() {
    // The concrete scenario: the 256-bit test-registry group, x = 7,
    // message 42 encrypted with ephemeral exponent 3, decrypted with
    // search bound 100.
    let pp = ElGamalPP::from_registry(GroupId::Test256);
    let (pk, sk) = keys_for(&pp, 7);
    let ct = ExponentElGamal::encrypt_from_predefined_randomness(&n(42), &pk, &n(3)).unwrap();
    let expected_c1 = BigInt::mod_pow(&pp.g, &n(3), &pp.p);
    let g42 = BigInt::mod_pow(&pp.g, &n(42), &pp.p);
    let h3 = BigInt::mod_pow(&pk.h, &n(3), &pp.p);
    let expected_c2 = BigInt::mod_mul(&g42, &h3, &pp.p);
    assert!(ct.c1.eq_value(&expected_c1));
    assert!(ct.c2.eq_value(&expected_c2));
    let m = ExponentElGamal::decrypt(&ct, &sk, 100).unwrap();
    assert!(m.eq_value(&n(42)));
}

#[test]
fn exponent_round_trip_with_rng() {
    let pp = ElGamalPP::from_registry(GroupId::Test256);
    let rng = BigIntRand {};
    let kp = ElGamalKeyPair::generate(&pp, &rng);
    let ct = ExponentElGamal::encrypt(&n(77), &kp.pk, &rng).unwrap();
    let m = ExponentElGamal::decrypt(&ct, &kp.sk, 100).unwrap();
    assert!(m.eq_value(&n(77)));
}

#[test]
fn exponent_homomorphism_adds_plaintexts() {
    let pp = ElGamalPP::from_registry(GroupId::Test256);
    let (pk, sk) = keys_for(&pp, 7);
    let ct_a = ExponentElGamal::encrypt_from_predefined_randomness(&n(5), &pk, &n(3)).unwrap();
    let ct_b = ExponentElGamal::encrypt_from_predefined_randomness(&n(9), &pk, &n(5)).unwrap();
    let ct = ExponentElGamal::combine(&ct_a, &ct_b).unwrap();
    let m = ExponentElGamal::decrypt(&ct, &sk, 100).unwrap();
    assert!(m.eq_value(&n(14)));
}

#[test]
fn exponent_encrypt_rejects_message_at_or_above_q() {
    let pp = small_group();
    let (pk, _) = keys_for(&pp, 3);
    let r = ExponentElGamal::encrypt_from_predefined_randomness(&n(11), &pk, &n(4));
    assert_eq!(r.unwrap_err(), ElGamalError::EncryptionError);
    let r = ExponentElGamal::encrypt_from_predefined_randomness(&n(10), &pk, &n(4));
    assert!(r.is_ok());
}

#[test]
fn exponent_decrypt_fails_beyond_search_bound() {
    let pp = small_group();
    let (pk, sk) = keys_for(&pp, 3);
    let ct = ExponentElGamal::encrypt_from_predefined_randomness(&n(9), &pk, &n(4)).unwrap();
    let r = ExponentElGamal::decrypt(&ct, &sk, 9);
    assert_eq!(r.unwrap_err(), ElGamalError::DecryptionError);
    let m = ExponentElGamal::decrypt(&ct, &sk, 10).unwrap();
    assert!(m.eq_value(&n(9)));
}

#[test]
fn combine_rejects_different_parameters() {
    // Combining ciphertexts built under different public parameters must
    // fail with HomomorphicError, never silently proceed.
    let pp_a = small_group();
    let pp_b = ElGamalPP::from_registry(GroupId::Test256);
    let (pk_a, _) = keys_for(&pp_a, 3);
    let (pk_b, _) = keys_for(&pp_b, 7);
    let ct_a = ElGamal::encrypt_from_predefined_randomness(&n(6), &pk_a, &n(4)).unwrap();
    let ct_b = ElGamal::encrypt_from_predefined_randomness(&n(6), &pk_b, &n(4)).unwrap();
    let r = ElGamal::combine(&ct_a, &ct_b);
    assert_eq!(r.unwrap_err(), ElGamalError::HomomorphicError);

    let ct_c = ExponentElGamal::encrypt_from_predefined_randomness(&n(5), &pk_a, &n(4)).unwrap();
    let ct_d = ExponentElGamal::encrypt_from_predefined_randomness(&n(5), &pk_b, &n(3)).unwrap();
    let r = ExponentElGamal::combine(&ct_c, &ct_d);
    assert_eq!(r.unwrap_err(), ElGamalError::HomomorphicError);
}

#[test]
fn ciphertexts_are_not_mutated_by_combination() {
    let pp = small_group();
    let (pk, _) = keys_for(&pp, 3);
    let ct_a = ElGamal::encrypt_from_predefined_randomness(&n(3), &pk, &n(2)).unwrap();
    let ct_b = ElGamal::encrypt_from_predefined_randomness(&n(5), &pk, &n(4)).unwrap();
    let c1_before = ct_a.c1.clone();
    let _ = ElGamal::combine(&ct_a, &ct_b).unwrap();
    assert!(ct_a.c1.eq_value(&c1_before));
}

#[test]
fn keypair_generation_links_public_and_private_half() {
    let pp = ElGamalPP::from_registry(GroupId::Test256);
    let rng = BigIntRand {};
    let kp = ElGamalKeyPair::generate(&pp, &rng);
    let one = BigInt::from_u64(1);
    assert!(!kp.sk.x.lt_value(&one));
    assert!(kp.sk.x.lt_value(&pp.q));
    let h = BigInt::mod_pow(&pp.g, &kp.sk.x, &pp.p);
    assert!(kp.pk.h.eq_value(&h));
}

#[test]
fn solver_recovers_every_exponent_below_bound() {
    // g = 2 has order 11 modulo 23: every exponent in [0, 11) is recovered.
    let g = n(2);
    let p = n(23);
    for m in 0..11u64 {
        let target = BigInt::mod_pow(&g, &n(m), &p);
        assert_eq!(dl_solvers::solve(&g, &target, &p, 11), Some(m));
    }
}

#[test]
fn solver_reports_not_found_beyond_bound() {
    let g = n(2);
    let p = n(23);
    // 2^9 mod 23 = 6, but the search is bounded by 5.
    let target = BigInt::mod_pow(&g, &n(9), &p);
    assert_eq!(dl_solvers::solve(&g, &target, &p, 5), None);
    // 7 is not a power of 2 modulo 23 at all.
    assert_eq!(dl_solvers::solve(&g, &n(7), &p, 11), None);
}

#[test]
fn solver_crosses_giant_steps() {
    // With bound 64 the table holds 8 baby steps; exponent 57 sits in the
    // eighth giant stride of the 256-bit test group.
    let pp = ElGamalPP::from_registry(GroupId::Test256);
    let target = BigInt::mod_pow(&pp.g, &n(57), &pp.p);
    assert_eq!(dl_solvers::solve(&pp.g, &target, &pp.p, 64), Some(57));
    assert_eq!(dl_solvers::solve(&pp.g, &target, &pp.p, 57), None);
}
