//! The inclusion branch the external tree hands out.
//!
//! The tree itself is an external collaborator; the circuit only consumes a
//! root and a path.  A [`Branch`] holds that path as plain data: one level
//! per tree layer, each a full node of [`BRANCH_ARITY`] scalars together
//! with the offset of the child the path descends through.  Authentication
//! recomputes every level hash with the sponge and rebuilds the position
//! from the offsets.

use vstd::prelude::*;

use dusk_bls12_381::BlsScalar;

use crate::backend::bls_scalar_eq;
use crate::backend::poseidon_sponge;
use crate::backend::sponge_hash;

verus! {

/// Number of children of every tree node.
pub const BRANCH_ARITY: usize = 4;

/// Deepest tree this crate authenticates against; keeps positions inside a
/// `u64`.
pub const BRANCH_MAX_DEPTH: usize = 31;

/// One level of an inclusion path: a full node and the child the path takes.
pub struct BranchLevel {
    /// The scalars of the whole node, leaf-most level first.
    pub items: Vec<BlsScalar>,
    /// Which of the node's children the path descends through.
    pub offset: usize,
}

/// An inclusion path from a leaf to a declared root.
pub struct Branch {
    /// The levels of the path, starting at the leaf's own node.
    pub levels: Vec<BranchLevel>,
    /// The root the path claims to reach.
    pub root: BlsScalar,
}

/// `4^k`.
pub open spec fn pow4(k: int) -> int
    decreases k,
{
    if k <= 0 {
        1
    } else {
        4 * pow4(k - 1)
    }
}

proof fn lemma_pow4_pos(k: int)
    ensures
        pow4(k) >= 1,
    decreases k,
{
    if k > 0 {
        lemma_pow4_pos(k - 1);
    }
}

proof fn lemma_pow4_mono(a: int, b: int)
    requires
        a <= b,
    ensures
        pow4(a) <= pow4(b),
    decreases b - a,
{
    if a < b {
        lemma_pow4_mono(a, b - 1);
        lemma_pow4_pos(b - 1);
    }
}

impl Branch {
    /// Every level is a full node with an in-range offset, and the path is
    /// neither empty nor deeper than [`BRANCH_MAX_DEPTH`].
    pub open spec fn wf(self) -> bool {
        &&& 1 <= self.levels@.len() <= BRANCH_MAX_DEPTH
        &&& forall|i: int|
            0 <= i < self.levels@.len() ==> (#[trigger] self.levels@[i]).items@.len()
                == BRANCH_ARITY && self.levels@[i].offset < BRANCH_ARITY
    }

    /// The scalar level `i` must hold at its offset: the leaf itself at the
    /// bottom, the sponge hash of the level below everywhere else.
    pub open spec fn node_at(self, i: int, leaf: BlsScalar) -> BlsScalar {
        if i == 0 {
            leaf
        } else {
            sponge_hash(self.levels@[i - 1].items@)
        }
    }

    /// Every level holds the hash of the level below at its offset.
    pub open spec fn links_ok(self, leaf: BlsScalar) -> bool {
        forall|i: int|
            0 <= i < self.levels@.len() ==> (#[trigger] self.levels@[i]).items@[self.levels@[i].offset as int]
                == self.node_at(i, leaf)
    }

    /// The position encoded by the first `k` offsets, base-`4` little-endian.
    pub open spec fn pos_below(self, k: int) -> int
        decreases k,
    {
        if k <= 0 {
            0
        } else {
            self.pos_below(k - 1) + self.levels@[k - 1].offset * pow4(k - 1)
        }
    }

    /// The branch authenticates `leaf` at position `pos` under its root.
    pub open spec fn authenticates(self, leaf: BlsScalar, pos: u64) -> bool {
        &&& self.wf()
        &&& self.links_ok(leaf)
        &&& self.root == sponge_hash(self.levels@[self.levels@.len() - 1].items@)
        &&& pos == self.pos_below(self.levels@.len() as int)
    }

    /// Recomputes every level hash and the encoded position, and compares
    /// the final hash against the declared root.
    pub fn authenticate(&self, leaf: &BlsScalar, pos: u64) -> (r: bool)
        ensures
            r == self.authenticates(*leaf, pos),
    {
        let n = self.levels.len();
        if n < 1 || n > BRANCH_MAX_DEPTH {
            return false;
        }
        let mut i: usize = 0;
        let mut shape_ok = true;
        while i < n
            invariant
                0 <= i <= n,
                n == self.levels@.len(),
                shape_ok <==> (forall|j: int|
                    0 <= j < i ==> (#[trigger] self.levels@[j]).items@.len() == BRANCH_ARITY
                        && self.levels@[j].offset < BRANCH_ARITY),
            decreases n - i,
        {
            let lv = &self.levels[i];
            if lv.items.len() != BRANCH_ARITY || lv.offset >= BRANCH_ARITY {
                shape_ok = false;
            }
            i = i + 1;
        }
        if !shape_ok {
            return false;
        }

        let mut cur: BlsScalar = *leaf;
        let mut acc: u64 = 0;
        let mut powv: u64 = 1;
        let mut ok = true;
        let mut i: usize = 0;
        while i < n
            invariant
                0 <= i <= n,
                1 <= n <= BRANCH_MAX_DEPTH,
                n == self.levels@.len(),
                self.wf(),
                cur == self.node_at(i as int, *leaf),
                powv == pow4(i as int),
                acc <= powv - 1,
                acc == self.pos_below(i as int),
                ok <==> (forall|j: int|
                    0 <= j < i ==> (#[trigger] self.levels@[j]).items@[self.levels@[j].offset as int]
                        == self.node_at(j, *leaf)),
            decreases n - i,
        {
            let lv = &self.levels[i];
            if !bls_scalar_eq(&lv.items[lv.offset], &cur) {
                ok = false;
            }
            proof {
                vstd::arithmetic::mul::lemma_mul_inequality(lv.offset as int, 3, powv as int);
                lemma_pow4_mono(i as int, 30);
                assert(pow4(30) == 0x1000_0000_0000_0000) by {
                    reveal_with_fuel(pow4, 32);
                }
            }
            acc = acc + (lv.offset as u64) * powv;
            powv = powv * 4;
            cur = poseidon_sponge(&lv.items);
            i = i + 1;
        }

        let root_ok = bls_scalar_eq(&self.root, &cur);
        ok && root_ok && acc == pos
    }
}

} // verus!
