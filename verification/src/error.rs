//! Error taxonomy shared by every fallible operation of the crate.

use vstd::prelude::*;

verus! {

/// Everything that can go wrong while building, decoding or scoring a bid.
///
/// All failures are terminal for the call that produced them; the crate never
/// retries on its own behalf.
#[derive(Clone, Copy, Debug, PartialEq, Eq, Structural)]
pub enum BlindBidError {
    /// The raw bid amount lies above the protocol maximum.
    MaximumBidValueExceeded { max_val: u64, found: u64 },
    /// The raw bid amount lies below the protocol minimum.
    MinimumBidValueUnreached { min_val: u64, found: u64 },
    /// The ciphertext did not authenticate under the supplied secret.
    ///
    /// Deliberately opaque: a wrong key and a corrupted ciphertext are
    /// indistinguishable, so no decryption oracle is exposed.
    WrongSecretProvided,
    /// The consensus round has not yet reached the bid's eligibility round.
    BidNotEligible { eligibility: u64, round: u64 },
    /// The consensus round lies past the bid's expiration round.
    BidExpired { expiration: u64, round: u64 },
    /// A fixed-width decode failed: wrong buffer length, an off-curve point
    /// or a non-canonical scalar.
    InvalidEncoding,
}

} // verus!
