//! Score derivation: window enforcement, determinism and the exact kernel
//! formula.

use blindbid::score::{score_kernel, SCORE_SCALE};
use blindbid::{Bid, BlindBidError, Score, V_RAW_MIN};
use dusk_bls12_381::BlsScalar;
use dusk_jubjub::{JubJubAffine, JubJubScalar, GENERATOR_EXTENDED};
use dusk_pki::{PublicSpendKey, SecretSpendKey};
use rand::rngs::StdRng;
use rand::SeedableRng;

struct Fixture {
    bid: Bid,
    shared: JubJubAffine,
    secret_k: BlsScalar,
}

fn fixture(value: u64, eligibility: u64, expiration: u64) -> Fixture {
    let mut rng = StdRng::from_entropy();
    let secret = JubJubScalar::from(3u64);
    let pk_r = PublicSpendKey::from(SecretSpendKey::new(
        JubJubScalar::one(),
        -JubJubScalar::one(),
    ));
    let stealth_addr = pk_r.gen_stealth_address(&secret);
    let shared = JubJubAffine::from(GENERATOR_EXTENDED * &secret);
    let secret_k = BlsScalar::from(17u64);
    let bid = Bid::new(
        &mut rng,
        &stealth_addr,
        value,
        &shared,
        secret_k,
        eligibility,
        expiration,
    )
    .expect("Bid creation error");
    Fixture {
        bid,
        shared,
        secret_k,
    }
}

#[test]
fn score_refuses_rounds_before_eligibility() {
    let f = fixture(60_000, 10, 100);
    let r = Score::compute(
        &f.bid,
        &f.shared,
        f.secret_k,
        BlsScalar::from(1u64),
        BlsScalar::from(2u64),
        5,
        1,
    );
    assert_eq!(
        r.unwrap_err(),
        BlindBidError::BidNotEligible {
            eligibility: 10,
            round: 5
        }
    );
}

#[test]
fn score_refuses_rounds_after_expiration() {
    let f = fixture(60_000, 10, 100);
    let r = Score::compute(
        &f.bid,
        &f.shared,
        f.secret_k,
        BlsScalar::from(1u64),
        BlsScalar::from(2u64),
        200,
        1,
    );
    assert_eq!(
        r.unwrap_err(),
        BlindBidError::BidExpired {
            expiration: 100,
            round: 200
        }
    );
}

#[test]
fn score_accepts_window_bounds() {
    let f = fixture(60_000, 10, 100);
    for round in [10u64, 50, 100] {
        let r = Score::compute(
            &f.bid,
            &f.shared,
            f.secret_k,
            BlsScalar::from(1u64),
            BlsScalar::from(2u64),
            round,
            1,
        );
        assert!(r.is_ok());
    }
}

#[test]
fn score_rejects_wrong_secret() {
    let f = fixture(60_000, 10, 100);
    let wrong = JubJubAffine::from(GENERATOR_EXTENDED * &JubJubScalar::from(4u64));
    let r = Score::compute(
        &f.bid,
        &wrong,
        f.secret_k,
        BlsScalar::from(1u64),
        BlsScalar::from(2u64),
        50,
        1,
    );
    assert_eq!(r.unwrap_err(), BlindBidError::WrongSecretProvided);
}

#[test]
fn score_matches_kernel_formula_exactly() {
    let value: u64 = 61_234;
    let f = fixture(value, 10, 100);
    let root = BlsScalar::from(77u64);
    let seed = BlsScalar::from(88u64);
    let round: u64 = 50;
    let step: u64 = 15;
    let s = Score::compute(&f.bid, &f.shared, f.secret_k, root, seed, round, step)
        .expect("Score computation error");

    let y = dusk_poseidon::sponge::hash(&[
        f.secret_k,
        root,
        seed,
        BlsScalar::from(round),
        BlsScalar::from(step),
    ]);
    let mut low = [0u8; 8];
    low.copy_from_slice(&y.to_bytes()[0..8]);
    let low = u64::from_le_bytes(low);
    let d = (low % SCORE_SCALE) + 1;
    let expected = ((value as u128) * (SCORE_SCALE as u128) / (d as u128)) as u64;
    assert_eq!(s.raw, expected);
    assert_eq!(s.value(), BlsScalar::from(expected));
}

#[test]
fn score_is_deterministic() {
    let f = fixture(60_000, 10, 100);
    let root = BlsScalar::from(5u64);
    let seed = BlsScalar::from(6u64);
    let a = Score::compute(&f.bid, &f.shared, f.secret_k, root, seed, 50, 2).unwrap();
    let b = Score::compute(&f.bid, &f.shared, f.secret_k, root, seed, 50, 2).unwrap();
    assert_eq!(a.raw, b.raw);
    assert_eq!(a.value(), b.value());
}

#[test]
fn kernel_grows_with_the_stake() {
    let y = dusk_poseidon::sponge::hash(&[BlsScalar::from(99u64)]);
    let lo = score_kernel(V_RAW_MIN, &y);
    let hi = score_kernel(V_RAW_MIN + 1, &y);
    assert!(lo < hi);
}
