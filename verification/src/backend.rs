//! Trusted interface to the outside curve, sponge and key crates.
//!
//! Everything the rest of the crate knows about the field/group arithmetic,
//! the Poseidon sponge and cipher, and the stealth-address type is stated
//! here, as contracts on thin wrappers around the outside calls.  The results
//! of the cryptographic primitives are given names (`sponge_hash`,
//! `cipher_of`, ...) rather than algebraic definitions: each name stands for
//! the deterministic function of its arguments that the outside crate
//! computes.

use vstd::prelude::*;

use dusk_bls12_381::BlsScalar;
use dusk_bytes::{DeserializableSlice, Serializable};
use dusk_jubjub::{JubJubAffine, JubJubScalar};
use dusk_pki::StealthAddress;
use dusk_poseidon::cipher::PoseidonCipher;
use rand::rngs::StdRng;
use rand::RngCore;

verus! {

#[verifier::external_type_specification]
#[verifier::external_body]
pub struct ExBlsScalar(BlsScalar);

#[verifier::external_type_specification]
#[verifier::external_body]
pub struct ExJubJubScalar(JubJubScalar);

#[verifier::external_type_specification]
#[verifier::external_body]
pub struct ExJubJubAffine(JubJubAffine);

#[verifier::external_type_specification]
#[verifier::external_body]
pub struct ExStealthAddress(StealthAddress);

#[verifier::external_type_specification]
#[verifier::external_body]
pub struct ExPoseidonCipher(PoseidonCipher);

#[verifier::external_type_specification]
#[verifier::external_body]
pub struct ExStdRng(StdRng);

/// The scalar that the Poseidon sponge squeezes out of a message.
pub uninterp spec fn sponge_hash(inputs: Seq<BlsScalar>) -> BlsScalar;

/// The ciphertext of a two-scalar message under a shared secret and a nonce.
pub uninterp spec fn cipher_of(
    m0: BlsScalar,
    m1: BlsScalar,
    secret: JubJubAffine,
    nonce: BlsScalar,
) -> PoseidonCipher;

/// The Pedersen commitment `value * G + blinder * G_nums` in affine form.
pub uninterp spec fn pedersen(value: JubJubScalar, blinder: JubJubScalar) -> JubJubAffine;

/// The image of a jubjub scalar inside the larger BLS scalar field.
pub uninterp spec fn bls_embed(s: JubJubScalar) -> BlsScalar;

/// The canonical 32-byte little-endian encoding of a BLS scalar.
pub uninterp spec fn bls_bytes(s: BlsScalar) -> Seq<u8>;

/// The canonical 32-byte little-endian encoding of a jubjub scalar.
pub uninterp spec fn jubjub_scalar_bytes(s: JubJubScalar) -> Seq<u8>;

/// The canonical 32-byte compressed encoding of an affine jubjub point.
pub uninterp spec fn affine_bytes(p: JubJubAffine) -> Seq<u8>;

/// The canonical 64-byte encoding of a stealth address (two compressed points).
pub uninterp spec fn stealth_bytes(a: StealthAddress) -> Seq<u8>;

/// The canonical 96-byte encoding of a Poseidon ciphertext (three scalars).
pub uninterp spec fn cipher_bytes(c: PoseidonCipher) -> Seq<u8>;

/// The BLS scalar with the integer value of a `u64`.
pub uninterp spec fn bls_of_u64(v: u64) -> BlsScalar;

/// The BLS scalar obtained by reducing a 512-bit little-endian integer.
pub uninterp spec fn bls_of_wide(bytes: Seq<u8>) -> BlsScalar;

/// A run of `n` zero bytes.
pub open spec fn zero_bytes(n: nat) -> Seq<u8> {
    Seq::new(n, |i: int| 0u8)
}

/// Holds when `s` is the jubjub scalar with the integer value of `v`.
pub open spec fn is_u64_scalar(s: JubJubScalar, v: u64) -> bool {
    jubjub_scalar_bytes(s) == vstd::bytes::spec_u64_to_le_bytes(v) + zero_bytes(24)
}

/// Relies on `dusk_poseidon::sponge::hash`: the sponge output depends on the
/// message scalars alone.
#[verifier::external_body]
pub(crate) fn poseidon_sponge(inputs: &Vec<BlsScalar>) -> (r: BlsScalar)
    ensures
        r == sponge_hash(inputs@),
{
    dusk_poseidon::sponge::hash(inputs.as_slice())
}

/// Relies on `PoseidonCipher::encrypt`: the ciphertext is a deterministic
/// function of the two message scalars, the shared secret and the nonce.
#[verifier::external_body]
pub(crate) fn cipher_encrypt(
    m0: &BlsScalar,
    m1: &BlsScalar,
    secret: &JubJubAffine,
    nonce: &BlsScalar,
) -> (r: PoseidonCipher)
    ensures
        r == cipher_of(*m0, *m1, *secret, *nonce),
{
    PoseidonCipher::encrypt(&[*m0, *m1], secret, nonce)
}

/// Relies on `PoseidonCipher::decrypt`: decryption is the partial inverse of
/// `PoseidonCipher::encrypt`.  Its source recomputes the key stream from the
/// secret and nonce, recovers the message by subtraction and accepts exactly
/// when the authentication element matches, so it returns `Some(m)` if and
/// only if the ciphertext equals `encrypt(m, secret, nonce)`.
#[verifier::external_body]
pub(crate) fn cipher_decrypt(
    c: &PoseidonCipher,
    secret: &JubJubAffine,
    nonce: &BlsScalar,
) -> (r: Option<(BlsScalar, BlsScalar)>)
    ensures
        forall|m0: BlsScalar, m1: BlsScalar|
            *c == cipher_of(m0, m1, *secret, *nonce) ==> r == Some((m0, m1)),
        r matches Some(m) ==> *c == cipher_of(m.0, m.1, *secret, *nonce),
{
    c.decrypt(secret, nonce).map(|m| (m[0], m[1]))
}

/// Relies on `dusk_jubjub::GENERATOR_EXTENDED` and
/// `dusk_jubjub::GENERATOR_NUMS_EXTENDED`: the commitment
/// `value * G + blinder * G_nums` depends on the two scalars alone.
#[verifier::external_body]
pub(crate) fn pedersen_commitment(
    value: &JubJubScalar,
    blinder: &JubJubScalar,
) -> (r: JubJubAffine)
    ensures
        r == pedersen(*value, *blinder),
{
    JubJubAffine::from(
        &(&dusk_jubjub::GENERATOR_EXTENDED * value)
            + &(&dusk_jubjub::GENERATOR_NUMS_EXTENDED * blinder),
    )
}

/// Relies on `From<JubJubScalar> for BlsScalar`: the conversion re-reads the
/// canonical bytes of the jubjub scalar as a BLS scalar, so the embedded
/// scalar keeps the same canonical encoding.
#[verifier::external_body]
pub(crate) fn bls_scalar_embed(s: &JubJubScalar) -> (r: BlsScalar)
    ensures
        r == bls_embed(*s),
        bls_bytes(r) == jubjub_scalar_bytes(*s),
{
    BlsScalar::from(*s)
}

/// Relies on `JubJubScalar::from_bytes` over `BlsScalar::to_bytes`: a BLS
/// scalar that is the embedding of a jubjub scalar carries that scalar's
/// canonical bytes, which decode back to it exactly.
#[verifier::external_body]
pub(crate) fn jubjub_scalar_from_bls(b: &BlsScalar) -> (r: Option<JubJubScalar>)
    ensures
        forall|s: JubJubScalar| *b == bls_embed(s) ==> r == Some(s),
        r matches Some(s) ==> jubjub_scalar_bytes(s) == bls_bytes(*b),
{
    Option::from(JubJubScalar::from_bytes(&b.to_bytes()))
}

/// Relies on `BlsScalar::to_bytes`: the canonical encoding is 32 bytes long.
#[verifier::external_body]
pub(crate) fn bls_scalar_to_bytes(s: &BlsScalar) -> (r: Vec<u8>)
    ensures
        r@ == bls_bytes(*s),
        r@.len() == 32,
{
    s.to_bytes().to_vec()
}

/// Relies on `BlsScalar::from_bytes` (via `from_slice`): it accepts exactly
/// the canonical encodings produced by `BlsScalar::to_bytes` and inverts them.
#[verifier::external_body]
pub(crate) fn bls_scalar_from_slice(b: &[u8]) -> (r: Option<BlsScalar>)
    requires
        b@.len() == 32,
    ensures
        forall|s: BlsScalar| b@ == bls_bytes(s) ==> r == Some(s),
        r matches Some(s) ==> b@ == bls_bytes(s),
{
    BlsScalar::from_slice(b).ok()
}

/// Relies on `JubJubScalar::to_bytes`: the canonical encoding is 32 bytes.
#[verifier::external_body]
pub(crate) fn jubjub_scalar_to_bytes(s: &JubJubScalar) -> (r: Vec<u8>)
    ensures
        r@ == jubjub_scalar_bytes(*s),
        r@.len() == 32,
{
    s.to_bytes().to_vec()
}

/// Relies on `JubJubScalar::from_bytes` (via `from_slice`): it accepts exactly
/// the canonical encodings produced by `JubJubScalar::to_bytes` and inverts
/// them.
#[verifier::external_body]
pub(crate) fn jubjub_scalar_from_slice(b: &[u8]) -> (r: Option<JubJubScalar>)
    requires
        b@.len() == 32,
    ensures
        forall|s: JubJubScalar| b@ == jubjub_scalar_bytes(s) ==> r == Some(s),
        r matches Some(s) ==> b@ == jubjub_scalar_bytes(s),
{
    JubJubScalar::from_slice(b).ok()
}

/// Relies on `JubJubAffine::to_bytes`: the compressed encoding is 32 bytes.
#[verifier::external_body]
pub(crate) fn affine_to_bytes(p: &JubJubAffine) -> (r: Vec<u8>)
    ensures
        r@ == affine_bytes(*p),
        r@.len() == 32,
{
    p.to_bytes().to_vec()
}

/// Relies on `JubJubAffine::from_bytes` (via `from_slice`): it accepts exactly
/// the canonical compressed encodings of on-curve points and inverts
/// `JubJubAffine::to_bytes`.
#[verifier::external_body]
pub(crate) fn affine_from_slice(b: &[u8]) -> (r: Option<JubJubAffine>)
    requires
        b@.len() == 32,
    ensures
        forall|p: JubJubAffine| b@ == affine_bytes(p) ==> r == Some(p),
        r matches Some(p) ==> b@ == affine_bytes(p),
{
    JubJubAffine::from_slice(b).ok()
}

/// Relies on `StealthAddress::to_bytes`: the encoding is 64 bytes.
#[verifier::external_body]
pub(crate) fn stealth_to_bytes(a: &StealthAddress) -> (r: Vec<u8>)
    ensures
        r@ == stealth_bytes(*a),
        r@.len() == 64,
{
    a.to_bytes().to_vec()
}

/// Relies on `StealthAddress::from_bytes` (via `from_slice`): it succeeds on
/// exactly the buffers whose halves are valid compressed points, and
/// re-encoding the decoded address reproduces the input bytes.  The decoded
/// address may hold a different projective representation of the same points
/// than the one originally encoded, so only its bytes are pinned.
#[verifier::external_body]
pub(crate) fn stealth_from_slice(b: &[u8]) -> (r: Option<StealthAddress>)
    requires
        b@.len() == 64,
    ensures
        r matches Some(a) ==> stealth_bytes(a) == b@,
        (exists|a: StealthAddress| stealth_bytes(a) == b@) ==> r is Some,
{
    StealthAddress::from_slice(b).ok()
}

/// Relies on `From<u64> for BlsScalar`: the scalar of a `u64` has that
/// integer as its canonical little-endian encoding.
#[verifier::external_body]
pub(crate) fn bls_scalar_of_u64(v: u64) -> (r: BlsScalar)
    ensures
        r == bls_of_u64(v),
        bls_bytes(r) == vstd::bytes::spec_u64_to_le_bytes(v) + zero_bytes(24),
{
    BlsScalar::from(v)
}

/// Relies on `From<u64> for JubJubScalar`: the scalar of a `u64` has that
/// integer as its canonical little-endian encoding.
#[verifier::external_body]
pub(crate) fn jubjub_scalar_of_u64(v: u64) -> (r: JubJubScalar)
    ensures
        is_u64_scalar(r, v),
{
    JubJubScalar::from(v)
}

/// Relies on `BlsScalar::from_bytes_wide`: the reduction of a 512-bit
/// little-endian integer depends on the bytes alone.
#[verifier::external_body]
pub(crate) fn bls_from_wide(b: &[u8]) -> (r: BlsScalar)
    requires
        b@.len() == 64,
    ensures
        r == bls_of_wide(b@),
{
    let buf: &[u8; 64] = b.try_into().unwrap();
    BlsScalar::from_bytes_wide(buf)
}

/// Relies on `PoseidonCipher::to_bytes`: the encoding is 96 bytes.
#[verifier::external_body]
pub(crate) fn cipher_to_bytes(c: &PoseidonCipher) -> (r: Vec<u8>)
    ensures
        r@ == cipher_bytes(*c),
        r@.len() == 96,
{
    c.to_bytes().to_vec()
}

/// Relies on `PoseidonCipher::from_bytes` (via `from_slice`): it accepts
/// exactly the buffers whose three 32-byte words are canonical scalars and
/// inverts `PoseidonCipher::to_bytes`.
#[verifier::external_body]
pub(crate) fn cipher_from_slice(b: &[u8]) -> (r: Option<PoseidonCipher>)
    requires
        b@.len() == 96,
    ensures
        forall|c: PoseidonCipher| b@ == cipher_bytes(c) ==> r == Some(c),
        r matches Some(c) ==> b@ == cipher_bytes(c),
{
    PoseidonCipher::from_slice(b).ok()
}

/// Relies on `BlsScalar::eq`: two scalars compare equal exactly when they are
/// the same field element (the Montgomery representation is unique).
#[verifier::external_body]
pub(crate) fn bls_scalar_eq(a: &BlsScalar, b: &BlsScalar) -> (r: bool)
    ensures
        r == (*a == *b),
{
    a == b
}

/// Relies on `JubJubScalar::eq`: two scalars compare equal exactly when they
/// are the same field element (the Montgomery representation is unique).
#[verifier::external_body]
pub(crate) fn jubjub_scalar_eq(a: &JubJubScalar, b: &JubJubScalar) -> (r: bool)
    ensures
        r == (*a == *b),
{
    a == b
}

/// Relies on `JubJubAffine::eq`: two affine points compare equal exactly when
/// their coordinates are equal, and affine coordinates are unique per point.
#[verifier::external_body]
pub(crate) fn affine_eq(a: &JubJubAffine, b: &JubJubAffine) -> (r: bool)
    ensures
        r == (*a == *b),
{
    a == b
}

/// Relies on `JubJubScalar::random`: a fresh scalar drawn from the supplied
/// randomness source.  Nothing is promised of the value.
#[verifier::external_body]
pub(crate) fn random_jubjub_scalar(rng: &mut StdRng) -> (r: JubJubScalar) {
    JubJubScalar::random(rng)
}

/// Relies on `RngCore::fill_bytes` and `BlsScalar::from_bytes_wide`,
/// mirroring how the outside crates draw a uniform scalar.  Nothing is
/// promised of the value.
#[verifier::external_body]
pub(crate) fn random_bls_scalar(rng: &mut StdRng) -> (r: BlsScalar) {
    let mut buf = [0u8; 64];
    rng.fill_bytes(&mut buf);
    BlsScalar::from_bytes_wide(&buf)
}

} // verus!
