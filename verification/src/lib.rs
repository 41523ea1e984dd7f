//! Sealed-bid cryptographic sortition primitive.
//!
//! A participant commits to a hidden stake inside a [`Bid`]: the stake and a
//! blinding factor are encrypted under a shared secret, committed to with a
//! Pedersen commitment, and bounded by an eligibility window.  At consensus
//! time the owner derives a publicly verifiable [`Score`] from the hidden
//! stake and round randomness, and a [`BlindBidCircuit`] witness bundle ties
//! bid, score and a Merkle [`Branch`] together into the relation a
//! zero-knowledge proof must establish.

use vstd::prelude::*;

pub mod backend;
pub mod bid;
pub mod branch;
pub mod circuit;
pub mod error;
pub mod score;

pub use bid::Bid;
pub use branch::{Branch, BranchLevel};
pub use circuit::{BlindBidCircuit, PublicInputs};
pub use error::BlindBidError;
pub use score::Score;

verus! {

/// The minimum amount a participant is permitted to bid.
pub const V_RAW_MIN: u64 = 50_000u64;

/// The maximum amount a participant is permitted to bid.
pub const V_RAW_MAX: u64 = 250_000u64;

} // verus!
