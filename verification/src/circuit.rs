//! The blind-bid constraint system, as a statement about plain values.
//!
//! [`constraints_hold`] is the relation a zero-knowledge proof of this
//! protocol must establish between a private witness bundle and the six
//! public inputs; [`BlindBidCircuit::satisfies_constraints`] decides it for
//! a concrete witness.  The proving-system backend that compiles the same
//! relation into an arithmetic circuit is an external collaborator and only
//! ever makes a statement about this relation: a witness on which
//! [`constraints_hold`] is false makes the constraint system unsatisfiable.

use vstd::prelude::*;

use dusk_bls12_381::BlsScalar;
use dusk_jubjub::{JubJubAffine, JubJubScalar};

use crate::backend::affine_eq;
use crate::backend::bls_of_u64;
use crate::backend::bls_scalar_eq;
use crate::backend::bls_scalar_of_u64;
use crate::backend::is_u64_scalar;
use crate::backend::jubjub_scalar_bytes;
use crate::backend::jubjub_scalar_to_bytes;
use crate::backend::pedersen;
use crate::backend::pedersen_commitment;
use crate::backend::poseidon_sponge;
use crate::backend::sponge_hash;
use crate::backend::zero_bytes;
use crate::bid::Bid;
use crate::error::BlindBidError;
use crate::branch::Branch;
use crate::score::{score_kernel, score_kernel_spec, y_of, Score};
use crate::{V_RAW_MAX, V_RAW_MIN};

verus! {

/// The ephemeral witness bundle a prover assembles for one proof.
pub struct BlindBidCircuit {
    /// The bid whose inclusion and score the proof is about.
    pub bid: Bid,
    /// The score the prover claims for this consensus instant.
    pub score: Score,
    /// The bidder's one-time secret scalar.
    pub secret_k: BlsScalar,
    /// The shared secret the ciphertext was sealed under.
    pub secret: JubJubAffine,
    /// The consensus seed of the instant.
    pub seed: BlsScalar,
    /// The consensus round of the instant.
    pub latest_consensus_round: u64,
    /// The consensus step of the instant.
    pub latest_consensus_step: u64,
    /// The inclusion path of the bid inside the external tree.
    pub branch: Branch,
}

/// The six public inputs a verifier checks a proof against, in their fixed
/// order: root, bid digest, commitment, hashed secret, prover id, score.
pub struct PublicInputs {
    /// Root of the tree holding the bid.
    pub root: BlsScalar,
    /// Canonical digest of the bid.
    pub bid_digest: BlsScalar,
    /// Pedersen commitment of the bid.
    pub commitment: JubJubAffine,
    /// Sponge hash of the bidder's one-time secret.
    pub hashed_secret: BlsScalar,
    /// The prover's one-time identity for this instant.
    pub prover_id: BlsScalar,
    /// The claimed score value.
    pub score: BlsScalar,
}

/// The full relation between a witness bundle and the public inputs:
///
/// 1. the bid opens to a stake within protocol bounds and a blinder, under
///    the witness secret, with ciphertext and commitment agreeing;
/// 2. the witness score is the kernel of that stake and the instant's
///    pseudo-random scalar, and the public score equals it;
/// 3. the public digest, commitment and hashed secret are the bid's own,
///    and the hashed secret is the sponge hash of `secret_k`;
/// 4. the public prover id is `H(secret_k, seed, round, step)`;
/// 5. the branch authenticates the bid's digest at the bid's position and
///    roots at the public root;
/// 6. the instant lies inside the bid's eligibility window.
pub open spec fn constraints_hold(w: BlindBidCircuit, pi: PublicInputs) -> bool {
    &&& exists|v: u64, blinder: JubJubScalar|
        #![auto]
        w.bid.seals(v, blinder, w.secret) && V_RAW_MIN <= v <= V_RAW_MAX && w.score.raw
            == score_kernel_spec(
            v,
            y_of(w.secret_k, w.branch.root, w.seed, w.latest_consensus_round,
            w.latest_consensus_step),
        )
    &&& w.score.wf()
    &&& pi.score == w.score.value
    &&& pi.bid_digest == w.bid.digest_spec()
    &&& pi.commitment == w.bid.c
    &&& w.bid.hashed_secret == sponge_hash(seq![w.secret_k])
    &&& pi.hashed_secret == w.bid.hashed_secret
    &&& pi.prover_id == sponge_hash(
        seq![
            w.secret_k,
            w.seed,
            bls_of_u64(w.latest_consensus_round),
            bls_of_u64(w.latest_consensus_step),
        ],
    )
    &&& w.branch.authenticates(w.bid.digest_spec(), w.bid.pos)
    &&& pi.root == w.branch.root
    &&& w.bid.eligibility <= w.latest_consensus_round <= w.bid.expiration
}

impl BlindBidCircuit {
    /// Decides [`constraints_hold`] for this witness bundle.
    ///
    /// A proving backend wired to the same relation produces a proof exactly
    /// when this returns `true`.
    pub fn satisfies_constraints(&self, pi: &PublicInputs) -> (r: bool)
        ensures
            r == constraints_hold(*self, *pi),
    {
        proof {
            vstd::bytes::lemma_auto_spec_u64_to_from_le_bytes();
        }
        // Open the ciphertext; without an opening no witness exists.
        let decrypted = self.bid.decrypt_data(&self.secret);
        let (vs, blinder) = match decrypted {
            Ok(p) => p,
            Err(_) => {
                proof {
                    assert forall|v: u64, bl: JubJubScalar|
                        !(self.bid.seals(v, bl, self.secret) && V_RAW_MIN <= v <= V_RAW_MAX
                            && self.score.raw == score_kernel_spec(
                            v,
                            y_of(self.secret_k, self.branch.root, self.seed,
                            self.latest_consensus_round, self.latest_consensus_step),
                        )) by {
                        if self.bid.seals(v, bl, self.secret) {
                            let wvs = choose|wvs: JubJubScalar|
                                self.bid.seals_with(wvs, v, bl, self.secret);
                            assert(decrypted == Ok::<
                                (JubJubScalar, JubJubScalar),
                                BlindBidError,
                            >((wvs, bl)));
                        }
                    }
                }
                return false;
            },
        };

        // Read the stake back as a plain integer.
        let vb = jubjub_scalar_to_bytes(&vs);
        let mut i: usize = 8;
        let mut tail_zero = true;
        while i < 32
            invariant
                8 <= i <= 32,
                vb@.len() == 32,
                tail_zero <==> (forall|j: int| 8 <= j < i ==> vb@[j] == 0u8),
            decreases 32 - i,
        {
            if vb[i] != 0u8 {
                tail_zero = false;
            }
            i = i + 1;
        }
        let value = vstd::bytes::u64_from_le_bytes(vstd::slice::slice_subrange(
            vb.as_slice(),
            0,
            8,
        ));
        proof {
            if tail_zero {
                assert(vb@ =~= vb@.subrange(0, 8) + zero_bytes(24));
                assert(is_u64_scalar(vs, value));
            }
            assert forall|v: u64, bl: JubJubScalar|
                (#[trigger] self.bid.seals(v, bl, self.secret)) implies tail_zero && value == v
                && bl == blinder by {
                let wvs = choose|wvs: JubJubScalar| self.bid.seals_with(wvs, v, bl, self.secret);
                assert(decrypted == Ok::<(JubJubScalar, JubJubScalar), BlindBidError>((
                    wvs,
                    bl,
                )));
                assert(wvs == vs);
                assert(jubjub_scalar_bytes(vs) == vstd::bytes::spec_u64_to_le_bytes(v)
                    + zero_bytes(24));
                assert(vb@.subrange(0, 8) =~= vstd::bytes::spec_u64_to_le_bytes(v));
                assert(forall|j: int| 8 <= j < 32 ==> vb@[j] == 0u8);
            }
        }
        if !tail_zero || value < V_RAW_MIN || value > V_RAW_MAX {
            return false;
        }

        // The opening we hold is the only one: pin it as the witness.
        proof {
            assert(self.bid.encrypted_data == crate::backend::cipher_of(
                crate::backend::bls_embed(vs),
                crate::backend::bls_embed(blinder),
                self.secret,
                self.bid.nonce,
            ));
        }

        // Constraint 1: the commitment opens to the same pair.
        let commit = pedersen_commitment(&vs, &blinder);
        let commitment_ok = affine_eq(&commit, &self.bid.c);

        // Constraint 2: the witness score is the kernel output and the
        // public score equals it.
        let mut y_in: Vec<BlsScalar> = Vec::new();
        y_in.push(self.secret_k);
        y_in.push(self.branch.root);
        y_in.push(self.seed);
        y_in.push(bls_scalar_of_u64(self.latest_consensus_round));
        y_in.push(bls_scalar_of_u64(self.latest_consensus_step));
        let y = poseidon_sponge(&y_in);
        proof {
            assert(y_in@ =~= seq![
                self.secret_k,
                self.branch.root,
                self.seed,
                bls_of_u64(self.latest_consensus_round),
                bls_of_u64(self.latest_consensus_step),
            ]);
        }
        let expected_raw = score_kernel(value, &y);
        let score_raw_ok = self.score.raw == expected_raw;
        let score_value = bls_scalar_of_u64(self.score.raw);
        let score_wf_ok = bls_scalar_eq(&self.score.value, &score_value);
        let score_pi_ok = bls_scalar_eq(&pi.score, &self.score.value);

        // Constraint 3: digest, commitment and hashed secret as declared.
        let dg = self.bid.hash();
        let digest_ok = bls_scalar_eq(&pi.bid_digest, &dg);
        let commitment_pi_ok = affine_eq(&pi.commitment, &self.bid.c);
        let mut hs_in: Vec<BlsScalar> = Vec::new();
        hs_in.push(self.secret_k);
        let hs = poseidon_sponge(&hs_in);
        proof {
            assert(hs_in@ =~= seq![self.secret_k]);
        }
        let hashed_secret_ok = bls_scalar_eq(&self.bid.hashed_secret, &hs);
        let hashed_secret_pi_ok = bls_scalar_eq(&pi.hashed_secret, &self.bid.hashed_secret);

        // Constraint 4: the prover id of this instant.
        let prover_id = self.bid.generate_prover_id(
            self.secret_k,
            self.seed,
            bls_scalar_of_u64(self.latest_consensus_round),
            bls_scalar_of_u64(self.latest_consensus_step),
        );
        let prover_id_ok = bls_scalar_eq(&pi.prover_id, &prover_id);

        // Constraint 5: tree inclusion at the bid's position.
        let branch_ok = self.branch.authenticate(&dg, self.bid.pos);
        let root_ok = bls_scalar_eq(&pi.root, &self.branch.root);

        // Constraint 6: the eligibility window.
        let window_ok = self.bid.eligibility <= self.latest_consensus_round
            && self.latest_consensus_round <= self.bid.expiration;

        let r = commitment_ok && score_raw_ok && score_wf_ok && score_pi_ok && digest_ok
            && commitment_pi_ok && hashed_secret_ok && hashed_secret_pi_ok && prover_id_ok
            && branch_ok && root_ok && window_ok;

        proof {
            if r {
                assert(self.bid.seals_with(vs, value, blinder, self.secret));
                assert(self.bid.seals(value, blinder, self.secret));
                assert(constraints_hold(*self, *pi));
            }
            if constraints_hold(*self, *pi) {
                let (wv, wbl): (u64, JubJubScalar) = choose|wv: u64, wbl: JubJubScalar|
                    #![auto]
                    self.bid.seals(wv, wbl, self.secret) && V_RAW_MIN <= wv <= V_RAW_MAX
                        && self.score.raw == score_kernel_spec(
                        wv,
                        y_of(self.secret_k, self.branch.root, self.seed,
                        self.latest_consensus_round, self.latest_consensus_step),
                    );
                assert(wv == value && wbl == blinder);
                let wvs = choose|wvs: JubJubScalar|
                    self.bid.seals_with(wvs, wv, wbl, self.secret);
                assert(wvs == vs);
                assert(self.bid.c == pedersen(vs, blinder));
                assert(r);
            }
        }
        r
    }
}

/// Declaring any score other than the witness's own makes the relation
/// false: a proof's public score cannot be raised (or changed at all) after
/// the fact.
pub proof fn lemma_tampered_score_fails(
    w: BlindBidCircuit,
    pi: PublicInputs,
    forged: PublicInputs,
)
    requires
        constraints_hold(w, pi),
        forged.score != pi.score,
    ensures
        !constraints_hold(w, forged),
{
}

/// Mutating the bid's published hashed secret while keeping the original
/// public inputs makes the relation false.
pub proof fn lemma_tampered_bid_fails(
    w: BlindBidCircuit,
    tampered: BlindBidCircuit,
    pi: PublicInputs,
)
    requires
        constraints_hold(w, pi),
        tampered.bid.hashed_secret != w.bid.hashed_secret,
    ensures
        !constraints_hold(tampered, pi),
{
}

/// No relation holds for an instant outside the bid's eligibility window:
/// a proof for a premature or expired round cannot exist.
pub proof fn lemma_window_enforced(w: BlindBidCircuit, pi: PublicInputs)
    requires
        w.latest_consensus_round < w.bid.eligibility || w.latest_consensus_round
            > w.bid.expiration,
    ensures
        !constraints_hold(w, pi),
{
}


/// An honestly assembled witness satisfies the relation: a bid that seals a
/// stake within bounds, a score that is the kernel of that stake, a branch
/// that authenticates the bid's digest, an instant inside the window, and
/// public inputs copied from those values always admit a proof.
pub proof fn lemma_honest_witness_satisfies(
    w: BlindBidCircuit,
    pi: PublicInputs,
    value: u64,
    blinder: JubJubScalar,
)
    requires
        w.bid.seals(value, blinder, w.secret),
        V_RAW_MIN <= value <= V_RAW_MAX,
        w.score.raw == score_kernel_spec(
            value,
            y_of(w.secret_k, w.branch.root, w.seed, w.latest_consensus_round,
            w.latest_consensus_step),
        ),
        w.score.wf(),
        w.bid.hashed_secret == sponge_hash(seq![w.secret_k]),
        w.branch.authenticates(w.bid.digest_spec(), w.bid.pos),
        w.bid.eligibility <= w.latest_consensus_round <= w.bid.expiration,
        pi.root == w.branch.root,
        pi.bid_digest == w.bid.digest_spec(),
        pi.commitment == w.bid.c,
        pi.hashed_secret == w.bid.hashed_secret,
        pi.prover_id == sponge_hash(
            seq![
                w.secret_k,
                w.seed,
                bls_of_u64(w.latest_consensus_round),
                bls_of_u64(w.latest_consensus_step),
            ],
        ),
        pi.score == w.score.value,
    ensures
        constraints_hold(w, pi),
{
}

} // verus!
