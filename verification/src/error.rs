use vstd::prelude::*;

verus! {

/// The ways an operation of this library can be refused.
///
/// Protocol violations (a duplicate publication, a premature read) are
/// reported to the caller; quorum failures are surfaced explicitly; an
/// unresolved complaint round asks for a justification phase instead of
/// silently producing an output.
#[derive(Clone, Copy, Debug, PartialEq, Eq, Structural)]
pub enum Error {
    /// The threshold does not satisfy `1 <= t <= n`.
    InvalidThreshold,
    /// More participants than the share-index space admits.
    TooManyNodes,
    /// The node index does not belong to the group.
    NodeNotInGroup,
    /// The sender index lies outside the board's range.
    SenderOutOfRange,
    /// The same sender published twice in one round.
    DuplicatePublish,
    /// A round was read before every expected sender published.
    RoundIncomplete,
    /// Complaints left fewer qualified dealers than the threshold; the
    /// run must continue with a justification round.
    JustificationRequired,
    /// Two honest participants reported different public keys.
    InconsistentPublicKeys,
    /// Fewer distinct partial signatures than the threshold.
    NotEnoughPartialSignatures,
    /// The backing scheme refused to combine the partial signatures.
    AggregationFailed,
    /// No distributed key generation task is outstanding.
    NoDKGTask,
    /// No group with the requested index exists.
    GroupNotFound,
    /// No signature task is pending.
    NoPendingTask,
    /// No randomness task has ever been fulfilled.
    NoOutputAvailable,
}

} // verus!
