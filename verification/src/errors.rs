use vstd::prelude::*;

verus! {

/// A fatal planning fault: the bridging request itself is wrong, and no
/// retry can mend it. Planning aborts before any submission is attempted.
#[derive(Clone, Copy, Debug, PartialEq, Eq, Structural)]
pub enum PlanningError {
    /// The target height is not strictly ahead of the verifier's trusted height.
    TargetNotAhead,
    /// The transaction hash does not occur in the named block.
    TxNotInBlock,
    /// A required checkpoint came without stake or signature data.
    IncompleteCheckpoint,
    /// The fetched checkpoint headers do not match the planned checkpoint heights.
    CheckpointMismatch,
    /// The inclusion proof does not fold back to the target header's transaction root.
    ProofMismatch,
}

/// Why a submission sequence stopped short of completion. The verifier's
/// already-advanced trusted height stays intact; a later run must replan
/// from the now-current trusted height.
#[derive(Clone, Copy, Debug, PartialEq, Eq, Structural)]
pub enum SubmitFailure {
    /// The remote verifier's internal checks rejected a submitted bundle.
    VerifierRejection,
    /// The observed trusted height after a submission matches neither the
    /// height before it nor the expected post-bundle height.
    UnexpectedHeight,
}

} // verus!
