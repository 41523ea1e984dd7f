//! The bid commitment/encryption layer.
//!
//! A [`Bid`] owns a bidder's committed, encrypted stake and its eligibility
//! window.  The stake and a fresh blinding factor are encrypted under a
//! shared secret with a single-use nonce, and bound by a Pedersen commitment;
//! the circuit later re-proves that ciphertext and commitment open to the
//! same pair.

use vstd::prelude::*;

use dusk_bls12_381::BlsScalar;
use dusk_jubjub::{JubJubAffine, JubJubScalar};
use dusk_pki::StealthAddress;
use dusk_poseidon::cipher::PoseidonCipher;
use rand::rngs::StdRng;

use crate::backend::affine_from_slice;
use crate::backend::bls_embed;
use crate::backend::bls_scalar_embed;
use crate::backend::bls_scalar_from_slice;
use crate::backend::bls_scalar_of_u64;
use crate::backend::bls_scalar_eq;
use crate::backend::bls_scalar_to_bytes;
use crate::backend::cipher_decrypt;
use crate::backend::cipher_encrypt;
use crate::backend::cipher_from_slice;
use crate::backend::cipher_to_bytes;
use crate::backend::affine_to_bytes;
use crate::backend::bls_from_wide;
use crate::backend::bls_bytes;
use crate::backend::bls_of_u64;
use crate::backend::bls_of_wide;
use crate::backend::affine_bytes;
use crate::backend::cipher_bytes;
use crate::backend::cipher_of;
use crate::backend::is_u64_scalar;
use crate::backend::jubjub_scalar_bytes;
use crate::backend::jubjub_scalar_from_bls;
use crate::backend::jubjub_scalar_of_u64;
use crate::backend::pedersen;
use crate::backend::pedersen_commitment;
use crate::backend::poseidon_sponge;
use crate::backend::random_bls_scalar;
use crate::backend::random_jubjub_scalar;
use crate::backend::sponge_hash;
use crate::backend::stealth_bytes;
use crate::backend::stealth_from_slice;
use crate::backend::stealth_to_bytes;
use crate::backend::zero_bytes;
use crate::error::BlindBidError;
use crate::{V_RAW_MAX, V_RAW_MIN};

verus! {

/// A bidder's sealed stake.
///
/// Identity of two bids is the equality of their canonical digest
/// ([`Bid::digest_spec`]), never memberwise equality of the fields.
#[derive(Clone, Copy, Debug)]
pub struct Bid {
    /// Ciphertext of `(value, blinder)` under the shared secret and `nonce`.
    pub encrypted_data: PoseidonCipher,
    /// Single-use scalar bound to the ciphertext; regenerated on every seal.
    pub nonce: BlsScalar,
    /// One-time recipient address of the bidder.
    pub stealth_address: StealthAddress,
    /// Sponge hash of the bidder's one-time secret `secret_k`.
    pub hashed_secret: BlsScalar,
    /// Pedersen commitment to `(value, blinder)`.
    pub c: JubJubAffine,
    /// First consensus round (inclusive) at which the bid may win.
    pub eligibility: u64,
    /// Last consensus round (inclusive) at which the bid may win.
    pub expiration: u64,
    /// Position of the bid inside the external tree, assigned after insertion.
    pub pos: u64,
}

impl Bid {
    /// The ciphertext and commitment both open to `(value, blinder)` with the
    /// witness scalar `vs` standing for `value`.
    pub open spec fn seals_with(
        self,
        vs: JubJubScalar,
        value: u64,
        blinder: JubJubScalar,
        secret: JubJubAffine,
    ) -> bool {
        &&& is_u64_scalar(vs, value)
        &&& self.encrypted_data == cipher_of(
            bls_embed(vs),
            bls_embed(blinder),
            secret,
            self.nonce,
        )
        &&& self.c == pedersen(vs, blinder)
    }

    /// The ciphertext and commitment both open to `(value, blinder)` under
    /// `secret`: the central invariant the circuit re-proves.
    pub open spec fn seals(self, value: u64, blinder: JubJubScalar, secret: JubJubAffine) -> bool {
        exists|vs: JubJubScalar| self.seals_with(vs, value, blinder, secret)
    }

    /// The bid hides `value` under `secret` behind some blinding factor.
    pub open spec fn hides(self, value: u64, secret: JubJubAffine) -> bool {
        exists|blinder: JubJubScalar| self.seals(value, blinder, secret)
    }

    /// Builds a sealed bid from a randomness source and its fields.
    ///
    /// Rejects any `value` outside `[V_RAW_MIN, V_RAW_MAX]`; on success the
    /// stake is encrypted with a fresh blinder and nonce, committed to, and
    /// the one-time secret is published only as its sponge hash.
    pub fn new(
        rng: &mut StdRng,
        stealth_address: &StealthAddress,
        value: u64,
        secret: &JubJubAffine,
        secret_k: BlsScalar,
        eligibility: u64,
        expiration: u64,
    ) -> (r: Result<Bid, BlindBidError>)
        ensures
            value > V_RAW_MAX ==> r == Err::<Bid, BlindBidError>(
                BlindBidError::MaximumBidValueExceeded { max_val: V_RAW_MAX, found: value },
            ),
            value < V_RAW_MIN ==> r == Err::<Bid, BlindBidError>(
                BlindBidError::MinimumBidValueUnreached { min_val: V_RAW_MIN, found: value },
            ),
            V_RAW_MIN <= value <= V_RAW_MAX ==> (r matches Ok(b) && {
                &&& b.hashed_secret == sponge_hash(seq![secret_k])
                &&& b.stealth_address == *stealth_address
                &&& b.eligibility == eligibility
                &&& b.expiration == expiration
                &&& b.pos == 0
                &&& b.hides(value, *secret)
            }),
    {
        if value > V_RAW_MAX {
            return Err(BlindBidError::MaximumBidValueExceeded { max_val: V_RAW_MAX, found: value });
        }
        if value < V_RAW_MIN {
            return Err(
                BlindBidError::MinimumBidValueUnreached { min_val: V_RAW_MIN, found: value },
            );
        }

        let mut hash_input: Vec<BlsScalar> = Vec::new();
        hash_input.push(secret_k);
        let hashed_secret = poseidon_sponge(&hash_input);
        proof {
            assert(hash_input@ =~= seq![secret_k]);
        }

        // Placeholder seal; `set_value` below replaces nonce, ciphertext and
        // commitment with the real ones.
        let zero_jubjub = jubjub_scalar_of_u64(0);
        let zero_bls = bls_scalar_of_u64(0);
        let mut bid = Bid {
            encrypted_data: cipher_encrypt(&zero_bls, &zero_bls, secret, &zero_bls),
            nonce: zero_bls,
            stealth_address: *stealth_address,
            hashed_secret,
            c: pedersen_commitment(&zero_jubjub, &zero_jubjub),
            eligibility,
            expiration,
            pos: 0u64,
        };

        bid.set_value(rng, value, secret);

        Ok(bid)
    }

    /// Re-seals the bid: samples a fresh blinder and nonce, encrypts
    /// `(value, blinder)` and recomputes the commitment.  Only the
    /// constructor uses it; a published bid is never re-sealed in place.
    pub(crate) fn set_value(&mut self, rng: &mut StdRng, value: u64, secret: &JubJubAffine)
        ensures
            final(self).stealth_address == old(self).stealth_address,
            final(self).hashed_secret == old(self).hashed_secret,
            final(self).eligibility == old(self).eligibility,
            final(self).expiration == old(self).expiration,
            final(self).pos == old(self).pos,
            final(self).hides(value, *secret),
    {
        let blinder = random_jubjub_scalar(rng);
        self.nonce = random_bls_scalar(rng);
        let vs = jubjub_scalar_of_u64(value);
        let m0 = bls_scalar_embed(&vs);
        let m1 = bls_scalar_embed(&blinder);
        self.encrypted_data = cipher_encrypt(&m0, &m1, secret, &self.nonce);
        self.c = pedersen_commitment(&vs, &blinder);
        proof {
            assert(self.seals_with(vs, value, blinder, *secret));
            assert(self.seals(value, blinder, *secret));
        }
    }

    /// The one-time prover identity `H(secret_k, seed, round, step)`.
    ///
    /// Deterministic: identical inputs give the identical scalar, so the bid
    /// owner can reproduce it each round while outsiders cannot link rounds.
    pub fn generate_prover_id(
        &self,
        secret_k: BlsScalar,
        consensus_round_seed: BlsScalar,
        latest_consensus_round: BlsScalar,
        latest_consensus_step: BlsScalar,
    ) -> (r: BlsScalar)
        ensures
            r == sponge_hash(
                seq![
                    secret_k,
                    consensus_round_seed,
                    latest_consensus_round,
                    latest_consensus_step,
                ],
            ),
    {
        let mut inputs: Vec<BlsScalar> = Vec::new();
        inputs.push(secret_k);
        inputs.push(consensus_round_seed);
        inputs.push(latest_consensus_round);
        inputs.push(latest_consensus_step);
        let r = poseidon_sponge(&inputs);
        proof {
            assert(inputs@ =~= seq![
                secret_k,
                consensus_round_seed,
                latest_consensus_round,
                latest_consensus_step,
            ]);
        }
        r
    }

    /// Recovers the `(value, blinder)` witness pair of the ciphertext.
    ///
    /// Fails with [`BlindBidError::WrongSecretProvided`] when the ciphertext
    /// does not authenticate under `secret`; whatever pair was sealed with
    /// `secret` is returned exactly.
    pub fn decrypt_data(&self, secret: &JubJubAffine) -> (r: Result<
        (JubJubScalar, JubJubScalar),
        BlindBidError,
    >)
        ensures
            forall|vs: JubJubScalar, blinder: JubJubScalar|
                self.encrypted_data == #[trigger] cipher_of(
                    bls_embed(vs),
                    bls_embed(blinder),
                    *secret,
                    self.nonce,
                ) ==> r == Ok::<(JubJubScalar, JubJubScalar), BlindBidError>((vs, blinder)),
            r matches Ok(p) ==> self.encrypted_data == cipher_of(
                bls_embed(p.0),
                bls_embed(p.1),
                *secret,
                self.nonce,
            ),
            r is Err ==> r == Err::<(JubJubScalar, JubJubScalar), BlindBidError>(
                BlindBidError::WrongSecretProvided,
            ),
    {
        match cipher_decrypt(&self.encrypted_data, secret, &self.nonce) {
            None => Err(BlindBidError::WrongSecretProvided),
            Some(m) => {
                let v = jubjub_scalar_from_bls(&m.0);
                let b = jubjub_scalar_from_bls(&m.1);
                match (v, b) {
                    (Some(vs), Some(blinder)) => {
                        // Re-encoding pins the recovered scalars to the two
                        // message words of the ciphertext.
                        let e0 = bls_scalar_embed(&vs);
                        let e1 = bls_scalar_embed(&blinder);
                        let m0b = bls_scalar_to_bytes(&m.0);
                        let chk0 = bls_scalar_from_slice(m0b.as_slice());
                        let m1b = bls_scalar_to_bytes(&m.1);
                        let chk1 = bls_scalar_from_slice(m1b.as_slice());
                        proof {
                            assert(chk0 == Some(e0));
                            assert(chk0 == Some(m.0));
                            assert(chk1 == Some(e1));
                            assert(chk1 == Some(m.1));
                        }
                        Ok((vs, blinder))
                    },
                    _ => Err(BlindBidError::WrongSecretProvided),
                }
            },
        }
    }

    /// The bid's one-time recipient address.
    pub fn stealth_address(&self) -> (r: &StealthAddress)
        ensures
            *r == self.stealth_address,
    {
        &self.stealth_address
    }

    /// The Pedersen commitment to the sealed pair.
    pub fn commitment(&self) -> (r: JubJubAffine)
        ensures
            r == self.c,
    {
        self.c
    }

    /// The published sponge hash of the bidder's one-time secret.
    pub fn hashed_secret(&self) -> (r: BlsScalar)
        ensures
            r == self.hashed_secret,
    {
        self.hashed_secret
    }

    /// The nine sponge inputs of the canonical digest, one entry per field
    /// (the ciphertext contributes two packed words).
    pub open spec fn digest_inputs(self) -> Seq<BlsScalar> {
        seq![
            bls_of_wide(cipher_bytes(self.encrypted_data).subrange(0, 48) + zero_bytes(16)),
            bls_of_wide(cipher_bytes(self.encrypted_data).subrange(48, 96) + zero_bytes(16)),
            self.nonce,
            bls_of_wide(stealth_bytes(self.stealth_address)),
            self.hashed_secret,
            bls_of_wide(affine_bytes(self.c) + zero_bytes(32)),
            bls_of_u64(self.eligibility),
            bls_of_u64(self.expiration),
            bls_of_u64(self.pos),
        ]
    }

    /// The canonical digest: a single sponge hash over all fields.  Two bids
    /// are the same bid exactly when their digests are equal.
    pub open spec fn digest_spec(self) -> BlsScalar {
        sponge_hash(self.digest_inputs())
    }

    /// The canonical fixed-width encoding: ciphertext, nonce, stealth
    /// address, hashed secret, commitment, then eligibility, expiration and
    /// position as 8-byte little-endian words.
    pub open spec fn encoding_spec(self) -> Seq<u8> {
        cipher_bytes(self.encrypted_data) + bls_bytes(self.nonce) + stealth_bytes(
            self.stealth_address,
        ) + bls_bytes(self.hashed_secret) + affine_bytes(self.c)
            + vstd::bytes::spec_u64_to_le_bytes(self.eligibility)
            + vstd::bytes::spec_u64_to_le_bytes(self.expiration)
            + vstd::bytes::spec_u64_to_le_bytes(self.pos)
    }

    /// Every field encodes at its fixed width.  Established by any call that
    /// serializes the field values; every value the outside crates produce
    /// satisfies it.
    pub open spec fn bytes_wf(self) -> bool {
        &&& cipher_bytes(self.encrypted_data).len() == 96
        &&& bls_bytes(self.nonce).len() == 32
        &&& stealth_bytes(self.stealth_address).len() == 64
        &&& bls_bytes(self.hashed_secret).len() == 32
        &&& affine_bytes(self.c).len() == 32
    }

    /// Computes the canonical digest of the bid.
    pub fn hash(&self) -> (r: BlsScalar)
        ensures
            r == self.digest_spec(),
    {
        let cipher_b = cipher_to_bytes(&self.encrypted_data);
        let sa_b = stealth_to_bytes(&self.stealth_address);
        let c_b = affine_to_bytes(&self.c);

        let mut w0: Vec<u8> = Vec::new();
        append_range(&mut w0, &cipher_b, 0, 48);
        push_zeros(&mut w0, 16);
        let mut w1: Vec<u8> = Vec::new();
        append_range(&mut w1, &cipher_b, 48, 96);
        push_zeros(&mut w1, 16);
        let mut wc: Vec<u8> = Vec::new();
        append_range(&mut wc, &c_b, 0, 32);
        push_zeros(&mut wc, 32);
        proof {
            assert(c_b@.subrange(0, 32) =~= c_b@);
        }

        let mut inputs: Vec<BlsScalar> = Vec::new();
        inputs.push(bls_from_wide(w0.as_slice()));
        inputs.push(bls_from_wide(w1.as_slice()));
        inputs.push(self.nonce);
        inputs.push(bls_from_wide(sa_b.as_slice()));
        inputs.push(self.hashed_secret);
        inputs.push(bls_from_wide(wc.as_slice()));
        inputs.push(bls_scalar_of_u64(self.eligibility));
        inputs.push(bls_scalar_of_u64(self.expiration));
        inputs.push(bls_scalar_of_u64(self.pos));
        let r = poseidon_sponge(&inputs);
        proof {
            assert(inputs@ =~= self.digest_inputs());
        }
        r
    }

    /// Serializes the bid into its canonical 280-byte buffer.
    pub fn to_bytes(&self) -> (r: Vec<u8>)
        ensures
            r@ == self.encoding_spec(),
            r@.len() == 280,
            self.bytes_wf(),
    {
        let mut out: Vec<u8> = Vec::new();
        let cipher_b = cipher_to_bytes(&self.encrypted_data);
        let nonce_b = bls_scalar_to_bytes(&self.nonce);
        let sa_b = stealth_to_bytes(&self.stealth_address);
        let hs_b = bls_scalar_to_bytes(&self.hashed_secret);
        let c_b = affine_to_bytes(&self.c);
        let elig_b = vstd::bytes::u64_to_le_bytes(self.eligibility);
        let exp_b = vstd::bytes::u64_to_le_bytes(self.expiration);
        let pos_b = vstd::bytes::u64_to_le_bytes(self.pos);
        append_all(&mut out, &cipher_b);
        append_all(&mut out, &nonce_b);
        append_all(&mut out, &sa_b);
        append_all(&mut out, &hs_b);
        append_all(&mut out, &c_b);
        append_all(&mut out, &elig_b);
        append_all(&mut out, &exp_b);
        append_all(&mut out, &pos_b);
        out
    }

    /// Decodes a bid from its canonical 280-byte buffer.
    ///
    /// Fails with [`BlindBidError::InvalidEncoding`] exactly when the buffer
    /// has the wrong length or one of the fixed-width fields does not decode
    /// (an off-curve point, a non-canonical scalar).  Decoding the encoding
    /// of a bid succeeds and reproduces a bid with the same canonical digest.
    pub fn from_bytes(bytes: &[u8]) -> (r: Result<Bid, BlindBidError>)
        ensures
            r matches Ok(d) ==> d.bytes_wf() && d.encoding_spec() == bytes@ && bytes@.len() == 280,
            r is Err ==> r == Err::<Bid, BlindBidError>(BlindBidError::InvalidEncoding),
            forall|b: Bid| bytes@ == b.encoding_spec() && b.bytes_wf() ==> (r matches Ok(d) && {
                &&& d.encrypted_data == b.encrypted_data
                &&& d.nonce == b.nonce
                &&& stealth_bytes(d.stealth_address) == stealth_bytes(b.stealth_address)
                &&& d.hashed_secret == b.hashed_secret
                &&& d.c == b.c
                &&& d.eligibility == b.eligibility
                &&& d.expiration == b.expiration
                &&& d.pos == b.pos
                &&& d.digest_spec() == b.digest_spec()
            }),
    {
        proof {
            vstd::bytes::lemma_auto_spec_u64_to_from_le_bytes();
        }
        if bytes.len() != 280 {
            proof {
                assert forall|b: Bid| !(bytes@ == b.encoding_spec() && b.bytes_wf()) by {
                    if bytes@ == b.encoding_spec() && b.bytes_wf() {
                        assert(b.encoding_spec().len() == 280);
                    }
                }
            }
            return Err(BlindBidError::InvalidEncoding);
        }
        let o_enc = cipher_from_slice(vstd::slice::slice_subrange(bytes, 0, 96));
        let o_nonce = bls_scalar_from_slice(vstd::slice::slice_subrange(bytes, 96, 128));
        let o_sa = stealth_from_slice(vstd::slice::slice_subrange(bytes, 128, 192));
        let o_hs = bls_scalar_from_slice(vstd::slice::slice_subrange(bytes, 192, 224));
        let o_c = affine_from_slice(vstd::slice::slice_subrange(bytes, 224, 256));
        let eligibility = vstd::bytes::u64_from_le_bytes(vstd::slice::slice_subrange(bytes, 256, 264));
        let expiration = vstd::bytes::u64_from_le_bytes(vstd::slice::slice_subrange(bytes, 264, 272));
        let pos = vstd::bytes::u64_from_le_bytes(vstd::slice::slice_subrange(bytes, 272, 280));

        proof {
            assert forall|b: Bid| bytes@ == b.encoding_spec() && b.bytes_wf() implies {
                &&& bytes@.subrange(0, 96) == cipher_bytes(b.encrypted_data)
                &&& bytes@.subrange(96, 128) == bls_bytes(b.nonce)
                &&& bytes@.subrange(128, 192) == stealth_bytes(b.stealth_address)
                &&& bytes@.subrange(192, 224) == bls_bytes(b.hashed_secret)
                &&& bytes@.subrange(224, 256) == affine_bytes(b.c)
                &&& bytes@.subrange(256, 264) == vstd::bytes::spec_u64_to_le_bytes(b.eligibility)
                &&& bytes@.subrange(264, 272) == vstd::bytes::spec_u64_to_le_bytes(b.expiration)
                &&& bytes@.subrange(272, 280) == vstd::bytes::spec_u64_to_le_bytes(b.pos)
            } by {
                assert(bytes@.subrange(0, 96) =~= cipher_bytes(b.encrypted_data));
                assert(bytes@.subrange(96, 128) =~= bls_bytes(b.nonce));
                assert(bytes@.subrange(128, 192) =~= stealth_bytes(b.stealth_address));
                assert(bytes@.subrange(192, 224) =~= bls_bytes(b.hashed_secret));
                assert(bytes@.subrange(224, 256) =~= affine_bytes(b.c));
                assert(bytes@.subrange(256, 264) =~= vstd::bytes::spec_u64_to_le_bytes(
                    b.eligibility,
                ));
                assert(bytes@.subrange(264, 272) =~= vstd::bytes::spec_u64_to_le_bytes(
                    b.expiration,
                ));
                assert(bytes@.subrange(272, 280) =~= vstd::bytes::spec_u64_to_le_bytes(b.pos));
            }
        }

        match (o_enc, o_nonce, o_sa, o_hs, o_c) {
            (Some(encrypted_data), Some(nonce), Some(stealth_address), Some(hashed_secret), Some(
                c,
            )) => {
                let d = Bid {
                    encrypted_data,
                    nonce,
                    stealth_address,
                    hashed_secret,
                    c,
                    eligibility,
                    expiration,
                    pos,
                };
                proof {
                    assert(bytes@ =~= d.encoding_spec());
                    assert forall|b: Bid| bytes@ == b.encoding_spec() && b.bytes_wf() implies
                        d.digest_spec() == b.digest_spec() by {
                        assert(d.encrypted_data == b.encrypted_data);
                        assert(d.nonce == b.nonce);
                        assert(d.hashed_secret == b.hashed_secret);
                        assert(d.c == b.c);
                        lemma_digest_depends_on_encoding(d, b);
                    }
                }
                Ok(d)
            },
            _ => {
                proof {
                    assert forall|b: Bid| !(bytes@ == b.encoding_spec() && b.bytes_wf()) by {
                        if bytes@ == b.encoding_spec() && b.bytes_wf() {
                            assert(o_enc == Some(b.encrypted_data));
                            assert(o_nonce == Some(b.nonce));
                            assert(o_sa is Some);
                            assert(o_hs == Some(b.hashed_secret));
                            assert(o_c == Some(b.c));
                        }
                    }
                }
                Err(BlindBidError::InvalidEncoding)
            },
        }
    }
}

/// Two bids with the same encoded field contents have the same canonical
/// digest; the digest reads nothing outside the canonical encoding.
pub proof fn lemma_digest_depends_on_encoding(a: Bid, b: Bid)
    requires
        a.encrypted_data == b.encrypted_data,
        a.nonce == b.nonce,
        stealth_bytes(a.stealth_address) == stealth_bytes(b.stealth_address),
        a.hashed_secret == b.hashed_secret,
        a.c == b.c,
        a.eligibility == b.eligibility,
        a.expiration == b.expiration,
        a.pos == b.pos,
    ensures
        a.digest_spec() == b.digest_spec(),
{
    assert(a.digest_inputs() =~= b.digest_inputs());
}

/// Appends `src[start..end]` to `dst`.
fn append_range(dst: &mut Vec<u8>, src: &Vec<u8>, start: usize, end: usize)
    requires
        start <= end <= src@.len(),
    ensures
        final(dst)@ == old(dst)@ + src@.subrange(start as int, end as int),
{
    let ghost dst0 = dst@;
    proof {
        assert(dst@ =~= dst0 + src@.subrange(start as int, start as int));
    }
    let mut i: usize = start;
    while i < end
        invariant
            start <= i <= end,
            end <= src@.len(),
            dst@ == dst0 + src@.subrange(start as int, i as int),
        decreases end - i,
    {
        dst.push(src[i]);
        proof {
            assert(src@.subrange(start as int, (i + 1) as int) =~= src@.subrange(
                start as int,
                i as int,
            ).push(src@[i as int]));
            assert(dst@ =~= dst0 + src@.subrange(start as int, (i + 1) as int));
        }
        i = i + 1;
    }
}

/// Appends the whole of `src` to `dst`.
fn append_all(dst: &mut Vec<u8>, src: &Vec<u8>)
    ensures
        final(dst)@ == old(dst)@ + src@,
{
    append_range(dst, src, 0, src.len());
    proof {
        assert(src@.subrange(0, src@.len() as int) =~= src@);
    }
}

/// Appends `n` zero bytes to `dst`.
fn push_zeros(dst: &mut Vec<u8>, n: usize)
    ensures
        final(dst)@ == old(dst)@ + zero_bytes(n as nat),
{
    let ghost dst0 = dst@;
    proof {
        assert(dst@ =~= dst0 + zero_bytes(0));
    }
    let mut i: usize = 0;
    while i < n
        invariant
            i <= n,
            dst@ == dst0 + zero_bytes(i as nat),
        decreases n - i,
    {
        dst.push(0u8);
        proof {
            assert(zero_bytes((i + 1) as nat) =~= zero_bytes(i as nat).push(0u8));
            assert(dst@ =~= dst0 + zero_bytes((i + 1) as nat));
        }
        i = i + 1;
    }
}



/// Bid identity is canonical-digest equality, never memberwise equality of
/// the fields.
impl PartialEq for Bid {
    fn eq(&self, other: &Self) -> (r: bool) {
        let a = self.hash();
        let b = other.hash();
        bls_scalar_eq(&a, &b)
    }
}

impl vstd::std_specs::cmp::PartialEqSpecImpl for Bid {
    open spec fn obeys_eq_spec() -> bool {
        true
    }

    open spec fn eq_spec(&self, other: &Bid) -> bool {
        self.digest_spec() == other.digest_spec()
    }
}

} // verus!
