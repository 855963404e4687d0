//! The error kinds a raffle operation can fail with. Every failure is fatal to
//! the attempted operation and names its cause exactly, so callers can tell a
//! retryable rejection from a futile or funds-critical one.

use vstd::prelude::*;

verus! {

#[derive(Clone, Copy, PartialEq, Eq, Structural, Debug)]
pub enum RafferoError {
    /// Lifecycle precondition: the raffle is not in the `Active` state.
    RaffleNotActive,
    /// The registration deadline has already passed.
    RaffleEnded,
    /// The registration deadline has not been reached yet.
    RaffleNotEnded,
    /// Every participant slot is taken.
    RaffleFull,
    /// The submitted entry commitment is all-zero.
    InvalidLeaf,
    /// The raffle's commitment roots have already been fixed.
    AlreadyFinalized,
    /// The winner draw needs a finalized commitment tree first.
    RaffleNotFinalized,
    /// No tickets were sold, so no winner can be drawn.
    NoParticipants,
    /// The caller-supplied verifier identity is not the one bound to the raffle.
    BadVerifier,
    /// The witness carries a raffle id other than the stored one.
    InvalidRaffleId,
    /// The witness carries a participant count other than the stored one.
    InvalidParticipants,
    /// The witness carries a tree depth other than the stored one.
    InvalidTreeDepth,
    /// The witness carries a root other than the stored final root.
    InvalidRoot,
    /// The witness carries a winner index other than the drawn one.
    NotWinner,
    /// A claim needs the raffle to be in the `Closed` state.
    RaffleNotClosed,
    /// The caller-supplied nullifier differs from the one in the witness.
    NullifierMismatch,
    /// The escrow holds nothing, or a transfer's source balance is too small.
    EmptyPrize,
    /// The relayer fee exceeds the escrow balance.
    BadRelayerFee,
    /// The public witness buffer is malformed.
    InvalidPublicWitness,
    /// An entry marker for this commitment already exists.
    DuplicateEntry,
    /// A nullifier marker for this nullifier already exists.
    DuplicateNullifier,
}

} // verus!
