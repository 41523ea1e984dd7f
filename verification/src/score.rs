//! The sortition score: the publicly revealed weight of one bid at one
//! consensus instant.
//!
//! The score is derived from the decrypted stake and a pseudo-random scalar
//! `y` that binds the bidder's one-time secret, the tree root and the round
//! randomness.  The kernel that combines them is this crate's versioned
//! sortition formula: deterministic, strictly increasing in the stake for a
//! fixed `y` (see [`lemma_score_strictly_increasing`]), and unpredictable
//! without the secret because `y` is a sponge output over it.

use vstd::prelude::*;

use dusk_bls12_381::BlsScalar;
use dusk_jubjub::{JubJubAffine, JubJubScalar};

use crate::backend::bls_bytes;
use crate::backend::bls_of_u64;
use crate::backend::bls_scalar_of_u64;
use crate::backend::bls_scalar_to_bytes;
use crate::backend::is_u64_scalar;
use crate::backend::jubjub_scalar_bytes;
use crate::backend::jubjub_scalar_to_bytes;
use crate::backend::poseidon_sponge;
use crate::backend::sponge_hash;
use crate::backend::zero_bytes;
use crate::bid::Bid;
use crate::error::BlindBidError;
use crate::{V_RAW_MAX, V_RAW_MIN};

verus! {

/// Scale factor of the sortition kernel: `2^40`.
pub const SCORE_SCALE: u64 = 0x100_0000_0000u64;

/// The pseudo-random scalar of one consensus instant:
/// `H(secret_k, root, seed, round, step)`.
pub open spec fn y_of(
    secret_k: BlsScalar,
    root: BlsScalar,
    seed: BlsScalar,
    round: u64,
    step: u64,
) -> BlsScalar {
    sponge_hash(seq![secret_k, root, seed, bls_of_u64(round), bls_of_u64(step)])
}

/// The kernel's divisor: the low 40 bits of `y`'s low word, plus one (so it
/// is never zero and never exceeds the scale).
pub open spec fn score_denominator(y: BlsScalar) -> int {
    (vstd::bytes::spec_u64_from_le_bytes(bls_bytes(y).subrange(0, 8)) as int) % (
    SCORE_SCALE as int) + 1
}

/// The sortition kernel: `value * 2^40 / denominator(y)`.
pub open spec fn score_kernel_spec(value: u64, y: BlsScalar) -> int {
    (value * SCORE_SCALE) / score_denominator(y)
}

/// The publicly revealed sortition weight of one bid at one instant.
#[derive(Clone, Copy, Debug)]
pub struct Score {
    /// The weight as a field element, as the circuit consumes it.
    pub value: BlsScalar,
    /// The weight as the plain integer the kernel produced.
    pub raw: u64,
}

impl Score {
    /// The field element mirrors the raw kernel output.
    pub open spec fn wf(self) -> bool {
        self.value == bls_of_u64(self.raw)
    }

    /// The weight as a field element.
    pub fn value(&self) -> (r: BlsScalar)
        ensures
            r == self.value,
    {
        self.value
    }

    /// Derives the score of `bid` for one consensus instant.
    ///
    /// Decrypts the bid (failing with
    /// [`BlindBidError::WrongSecretProvided`] when the ciphertext does not
    /// authenticate or does not hold a stake within protocol bounds), then
    /// refuses instants outside `[eligibility, expiration]`; otherwise the
    /// kernel is applied to the recovered stake.  Outside the window no
    /// score is ever produced.
    pub fn compute(
        bid: &Bid,
        secret: &JubJubAffine,
        secret_k: BlsScalar,
        bid_tree_root: BlsScalar,
        consensus_round_seed: BlsScalar,
        latest_consensus_round: u64,
        latest_consensus_step: u64,
    ) -> (r: Result<Score, BlindBidError>)
        ensures
            r matches Ok(s) ==> bid.eligibility <= latest_consensus_round <= bid.expiration
                && s.wf(),
            r is Err ==> (r == Err::<Score, BlindBidError>(BlindBidError::WrongSecretProvided) || r
                == Err::<Score, BlindBidError>(
                BlindBidError::BidNotEligible {
                    eligibility: bid.eligibility,
                    round: latest_consensus_round,
                },
            ) || r == Err::<Score, BlindBidError>(
                BlindBidError::BidExpired {
                    expiration: bid.expiration,
                    round: latest_consensus_round,
                },
            )),
            forall|v: u64, blinder: JubJubScalar|
                (#[trigger] bid.seals(v, blinder, *secret)) && V_RAW_MIN <= v <= V_RAW_MAX ==> (
                if latest_consensus_round < bid.eligibility {
                    r == Err::<Score, BlindBidError>(
                        BlindBidError::BidNotEligible {
                            eligibility: bid.eligibility,
                            round: latest_consensus_round,
                        },
                    )
                } else if latest_consensus_round > bid.expiration {
                    r == Err::<Score, BlindBidError>(
                        BlindBidError::BidExpired {
                            expiration: bid.expiration,
                            round: latest_consensus_round,
                        },
                    )
                } else {
                    r matches Ok(s) && s.raw == score_kernel_spec(
                        v,
                        y_of(
                            secret_k,
                            bid_tree_root,
                            consensus_round_seed,
                            latest_consensus_round,
                            latest_consensus_step,
                        ),
                    )
                }),
    {
        proof {
            vstd::bytes::lemma_auto_spec_u64_to_from_le_bytes();
        }
        let decrypted = bid.decrypt_data(secret);
        let (vs, _blinder) = match decrypted {
            Ok(p) => p,
            Err(_) => {
                return Err(BlindBidError::WrongSecretProvided);
            },
        };

        let vb = jubjub_scalar_to_bytes(&vs);
        let mut i: usize = 8;
        let mut tail_zero = true;
        while i < 32
            invariant
                8 <= i <= 32,
                vb@.len() == 32,
                tail_zero <==> (forall|j: int| 8 <= j < i ==> vb@[j] == 0u8),
            decreases 32 - i,
        {
            if vb[i] != 0u8 {
                tail_zero = false;
            }
            i = i + 1;
        }
        let value = vstd::bytes::u64_from_le_bytes(vstd::slice::slice_subrange(
            vb.as_slice(),
            0,
            8,
        ));
        proof {
            if tail_zero {
                assert(vb@ =~= vb@.subrange(0, 8) + zero_bytes(24));
                assert(is_u64_scalar(vs, value));
            }
            assert forall|v: u64, blinder: JubJubScalar|
                (#[trigger] bid.seals(v, blinder, *secret)) implies tail_zero && value == v
                && decrypted == Ok::<(JubJubScalar, JubJubScalar), BlindBidError>((vs, _blinder))
            by {
                let wvs = choose|wvs: JubJubScalar| bid.seals_with(wvs, v, blinder, *secret);
                assert(decrypted == Ok::<(JubJubScalar, JubJubScalar), BlindBidError>((
                    wvs,
                    blinder,
                )));
                assert(wvs == vs);
                assert(jubjub_scalar_bytes(vs) == vstd::bytes::spec_u64_to_le_bytes(v)
                    + zero_bytes(24));
                assert(vb@.subrange(0, 8) =~= vstd::bytes::spec_u64_to_le_bytes(v));
                assert(forall|j: int| 8 <= j < 32 ==> vb@[j] == 0u8);
            }
        }
        if !tail_zero || value < V_RAW_MIN || value > V_RAW_MAX {
            return Err(BlindBidError::WrongSecretProvided);
        }

        if latest_consensus_round < bid.eligibility {
            return Err(
                BlindBidError::BidNotEligible {
                    eligibility: bid.eligibility,
                    round: latest_consensus_round,
                },
            );
        }
        if latest_consensus_round > bid.expiration {
            return Err(
                BlindBidError::BidExpired {
                    expiration: bid.expiration,
                    round: latest_consensus_round,
                },
            );
        }

        let mut y_in: Vec<BlsScalar> = Vec::new();
        y_in.push(secret_k);
        y_in.push(bid_tree_root);
        y_in.push(consensus_round_seed);
        y_in.push(bls_scalar_of_u64(latest_consensus_round));
        y_in.push(bls_scalar_of_u64(latest_consensus_step));
        let y = poseidon_sponge(&y_in);
        proof {
            assert(y_in@ =~= seq![
                secret_k,
                bid_tree_root,
                consensus_round_seed,
                bls_of_u64(latest_consensus_round),
                bls_of_u64(latest_consensus_step),
            ]);
        }

        let raw = score_kernel(value, &y);
        let score_value = bls_scalar_of_u64(raw);
        Ok(Score { value: score_value, raw })
    }
}

/// Applies the sortition kernel to a stake within protocol bounds.
pub fn score_kernel(value: u64, y: &BlsScalar) -> (r: u64)
    requires
        value <= V_RAW_MAX,
    ensures
        r == score_kernel_spec(value, *y),
{
    let yb = bls_scalar_to_bytes(y);
    let low = vstd::bytes::u64_from_le_bytes(vstd::slice::slice_subrange(yb.as_slice(), 0, 8));
    let d: u64 = (low % SCORE_SCALE) + 1;
    let num: u128 = (value as u128) * (SCORE_SCALE as u128);
    let q: u128 = num / (d as u128);
    proof {
        vstd::arithmetic::div_mod::lemma_div_nonincreasing(num as int, d as int);
        assert(q <= num);
    }
    q as u64
}

/// The sortition weight is strictly increasing in the stake for a fixed
/// pseudo-random scalar: a larger hidden stake always yields a larger score.
pub proof fn lemma_score_strictly_increasing(v1: u64, v2: u64, y: BlsScalar)
    requires
        v1 < v2,
    ensures
        score_kernel_spec(v1, y) < score_kernel_spec(v2, y),
{
    let s = SCORE_SCALE as int;
    let d = score_denominator(y);
    let low = vstd::bytes::spec_u64_from_le_bytes(bls_bytes(y).subrange(0, 8)) as int;
    vstd::arithmetic::div_mod::lemma_mod_bound(low, s);
    assert(1 <= d <= s);
    vstd::arithmetic::mul::lemma_mul_inequality(v1 + 1, v2 as int, s);
    assert((v1 + 1) * s == v1 * s + s) by (nonlinear_arith);
    assert(v1 * s + d <= v2 * s);
    vstd::arithmetic::div_mod::lemma_div_plus_one(v1 * s, d);
    vstd::arithmetic::div_mod::lemma_div_is_ordered(v1 * s + d, v2 * s, d);
    assert((v1 * s) / d < (v2 * s) / d);
}

} // verus!
