//! Bid construction, encryption and serialization behaviour, exercised
//! against the real curve and sponge crates.

use blindbid::{Bid, BlindBidError, V_RAW_MAX, V_RAW_MIN};
use dusk_bls12_381::BlsScalar;
use dusk_bytes::Serializable;
use dusk_jubjub::{JubJubAffine, JubJubScalar, GENERATOR_EXTENDED, GENERATOR_NUMS_EXTENDED};
use dusk_pki::{PublicSpendKey, SecretSpendKey, StealthAddress};
use dusk_poseidon::cipher::PoseidonCipher;
use rand::rngs::StdRng;
use rand::{Rng, SeedableRng};

fn test_stealth_address(secret: &JubJubScalar) -> StealthAddress {
    let pk_r = PublicSpendKey::from(SecretSpendKey::new(
        JubJubScalar::one(),
        -JubJubScalar::one(),
    ));
    pk_r.gen_stealth_address(secret)
}

fn random_bid(secret: &JubJubScalar, secret_k: BlsScalar) -> Bid {
    let mut rng = StdRng::from_entropy();
    let stealth_addr = test_stealth_address(secret);
    let shared = JubJubAffine::from(GENERATOR_EXTENDED * secret);
    let value: u64 = rand::thread_rng().gen_range(V_RAW_MIN..V_RAW_MAX);
    let elegibility_ts = u64::MAX;
    let expiration_ts = u64::MAX;

    Bid::new(
        &mut rng,
        &stealth_addr,
        value,
        &shared,
        secret_k,
        elegibility_ts,
        expiration_ts,
    )
    .expect("Bid creation error")
}

#[test]
fn from_to_bytes_impl_works() -> Result<(), BlindBidError> {
    let bid = random_bid(&JubJubScalar::one(), BlsScalar::one());
    let bid_hash = bid.hash();
    let bytes = bid.to_bytes();
    let bid2 = Bid::from_bytes(bytes.as_slice())?;
    let bid_hash_2 = bid2.hash();
    assert_eq!(bid_hash, bid_hash_2);
    Ok(())
}

#[test]
fn bid_value_range_is_enforced() {
    let mut rng = StdRng::from_entropy();
    let secret = JubJubScalar::one();
    let stealth_addr = test_stealth_address(&secret);
    let shared = JubJubAffine::from(GENERATOR_EXTENDED * &secret);
    let secret_k = BlsScalar::one();

    let too_small = Bid::new(
        &mut rng,
        &stealth_addr,
        V_RAW_MIN - 1,
        &shared,
        secret_k,
        0,
        10,
    );
    assert_eq!(
        too_small.unwrap_err(),
        BlindBidError::MinimumBidValueUnreached {
            min_val: V_RAW_MIN,
            found: V_RAW_MIN - 1
        }
    );

    let too_large = Bid::new(
        &mut rng,
        &stealth_addr,
        V_RAW_MAX + 1,
        &shared,
        secret_k,
        0,
        10,
    );
    assert_eq!(
        too_large.unwrap_err(),
        BlindBidError::MaximumBidValueExceeded {
            max_val: V_RAW_MAX,
            found: V_RAW_MAX + 1
        }
    );

    assert!(Bid::new(&mut rng, &stealth_addr, V_RAW_MIN, &shared, secret_k, 0, 10).is_ok());
    assert!(Bid::new(&mut rng, &stealth_addr, V_RAW_MAX, &shared, secret_k, 0, 10).is_ok());
}

#[test]
fn decrypt_recovers_sealed_pair() {
    let mut rng = StdRng::from_entropy();
    let secret = JubJubScalar::from(7u64);
    let stealth_addr = test_stealth_address(&secret);
    let shared = JubJubAffine::from(GENERATOR_EXTENDED * &secret);
    let secret_k = BlsScalar::from(42u64);
    let value: u64 = 60_000;

    let bid = Bid::new(&mut rng, &stealth_addr, value, &shared, secret_k, 0, 10)
        .expect("Bid creation error");

    let (recovered_value, blinder) = bid.decrypt_data(&shared).expect("decryption");
    assert_eq!(recovered_value, JubJubScalar::from(value));

    // The ciphertext really is the Poseidon encryption of the recovered pair,
    // and the commitment really is the Pedersen commitment to it.
    let reencrypted = PoseidonCipher::encrypt(
        &[recovered_value.into(), blinder.into()],
        &shared,
        &bid.nonce,
    );
    assert_eq!(reencrypted, bid.encrypted_data);
    let recommitted = JubJubAffine::from(
        &(&GENERATOR_EXTENDED * &recovered_value) + &(&GENERATOR_NUMS_EXTENDED * &blinder),
    );
    assert_eq!(recommitted, bid.commitment());
}

#[test]
fn decrypt_with_wrong_secret_fails() {
    let secret = JubJubScalar::from(7u64);
    let bid = random_bid(&secret, BlsScalar::from(42u64));
    let wrong = JubJubAffine::from(GENERATOR_EXTENDED * &JubJubScalar::from(8u64));
    assert_eq!(
        bid.decrypt_data(&wrong).unwrap_err(),
        BlindBidError::WrongSecretProvided
    );
}

#[test]
fn prover_id_matches_sponge_and_is_deterministic() {
    let bid = random_bid(&JubJubScalar::one(), BlsScalar::from(9u64));
    let secret_k = BlsScalar::from(9u64);
    let seed = BlsScalar::from(11u64);
    let round = BlsScalar::from(50u64);
    let step = BlsScalar::from(50u64);
    let id1 = bid.generate_prover_id(secret_k, seed, round, step);
    let id2 = bid.generate_prover_id(secret_k, seed, round, step);
    assert_eq!(id1, id2);
    let direct = dusk_poseidon::sponge::hash(&[secret_k, seed, round, step]);
    assert_eq!(id1, direct);
}

#[test]
fn hashed_secret_is_sponge_of_secret_k() {
    let secret_k = BlsScalar::from(123u64);
    let bid = random_bid(&JubJubScalar::one(), secret_k);
    assert_eq!(bid.hashed_secret(), dusk_poseidon::sponge::hash(&[secret_k]));
}

#[test]
fn encoding_layout_is_fixed_width() {
    let bid = random_bid(&JubJubScalar::one(), BlsScalar::one());
    let bytes = bid.to_bytes();
    assert_eq!(bytes.len(), 280);
    assert_eq!(&bytes[0..96], &bid.encrypted_data.to_bytes()[..]);
    assert_eq!(&bytes[96..128], &bid.nonce.to_bytes()[..]);
    assert_eq!(&bytes[128..192], &bid.stealth_address.to_bytes()[..]);
    assert_eq!(&bytes[192..224], &bid.hashed_secret.to_bytes()[..]);
    assert_eq!(&bytes[224..256], &bid.c.to_bytes()[..]);
    assert_eq!(&bytes[256..264], &bid.eligibility.to_le_bytes()[..]);
    assert_eq!(&bytes[264..272], &bid.expiration.to_le_bytes()[..]);
    assert_eq!(&bytes[272..280], &bid.pos.to_le_bytes()[..]);
}

#[test]
fn digest_matches_direct_sponge_recomputation() {
    let bid = random_bid(&JubJubScalar::one(), BlsScalar::one());
    let cipher_b = bid.encrypted_data.to_bytes();
    let mut w0 = [0u8; 64];
    w0[..48].copy_from_slice(&cipher_b[0..48]);
    let mut w1 = [0u8; 64];
    w1[..48].copy_from_slice(&cipher_b[48..96]);
    let mut wc = [0u8; 64];
    wc[..32].copy_from_slice(&bid.c.to_bytes()[..]);
    let inputs = [
        BlsScalar::from_bytes_wide(&w0),
        BlsScalar::from_bytes_wide(&w1),
        bid.nonce,
        BlsScalar::from_bytes_wide(&bid.stealth_address.to_bytes()),
        bid.hashed_secret,
        BlsScalar::from_bytes_wide(&wc),
        BlsScalar::from(bid.eligibility),
        BlsScalar::from(bid.expiration),
        BlsScalar::from(bid.pos),
    ];
    assert_eq!(bid.hash(), dusk_poseidon::sponge::hash(&inputs));
}

#[test]
fn corrupted_encodings_are_rejected() {
    let bid = random_bid(&JubJubScalar::one(), BlsScalar::one());
    let bytes = bid.to_bytes();

    let truncated = &bytes[0..279];
    assert_eq!(
        Bid::from_bytes(truncated).unwrap_err(),
        BlindBidError::InvalidEncoding
    );

    // A nonce word of all 0xff is larger than the field modulus, so the
    // scalar decode must refuse it.
    let mut corrupt = bytes.clone();
    for b in corrupt[96..128].iter_mut() {
        *b = 0xff;
    }
    assert_eq!(
        Bid::from_bytes(corrupt.as_slice()).unwrap_err(),
        BlindBidError::InvalidEncoding
    );
}

#[test]
fn distinct_bids_have_distinct_digests() {
    let a = random_bid(&JubJubScalar::one(), BlsScalar::one());
    let b = random_bid(&JubJubScalar::one(), BlsScalar::one());
    assert_ne!(a.hash(), b.hash());
}

#[test]
fn position_is_bound_into_encoding_and_digest() {
    let mut bid = random_bid(&JubJubScalar::one(), BlsScalar::one());
    let digest_before = bid.hash();
    let bytes_before = bid.to_bytes();
    bid.pos = 5;
    assert_ne!(bid.hash(), digest_before);
    let bytes_after = bid.to_bytes();
    assert_eq!(&bytes_before[..272], &bytes_after[..272]);
    assert_eq!(&bytes_after[272..280], &5u64.to_le_bytes()[..]);
}
