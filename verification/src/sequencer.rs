use vstd::prelude::*;

use crate::errors::SubmitFailure;
use crate::plan::{MintArgs, plan_wf};

verus! {

/// Where the submission sequencer stands in its linear run through the
/// plan. A terminal `Failed` is reachable from every submitting state.
#[derive(Clone, Copy, Debug, PartialEq, Eq, Structural)]
pub enum SequencerState {
    /// Nothing has been submitted yet.
    Idle,
    /// The historical catch-up bundle at this position is in flight.
    SubmittingHistorical(usize),
    /// The target header bundle is in flight.
    SubmittingTargetHeader,
    /// The transaction-inclusion bundle is in flight.
    SubmittingTxProof,
    /// Every bundle was accepted and the inclusion proof went through.
    Done,
    /// The run stopped; the verifier keeps whatever height it reached, and
    /// a later run must replan from there.
    Failed(SubmitFailure),
}

/// The next bundle the surrounding driver must submit to the remote
/// verifier on the sequencer's behalf.
#[derive(Clone, Copy, Debug, PartialEq, Eq, Structural)]
pub enum SubmitAction {
    /// Submit the stake set and header of the historical bundle at this
    /// position in the plan.
    SubmitHistorical(usize),
    /// Submit the target header bundle.
    SubmitTargetHeader,
    /// Submit the transaction-inclusion bundle.
    SubmitTxProof,
}

/// Drives a fully assembled plan against the remote verifier, strictly in
/// order: each bundle is handed out only after the bundle before it has
/// observably advanced the verifier's trusted height to the expected value.
/// The sequencer owns no transport; the driver submits each action and
/// reports back what it observed.
pub struct Sequencer {
    /// The immutable plan under submission.
    pub plan: MintArgs,
    /// The verifier's trusted height the plan was assembled against.
    pub plan_trusted: u64,
    /// The epoch length the plan was assembled against.
    pub epoch_len: u64,
    /// The sequencer's position in the plan.
    pub state: SequencerState,
}

impl Sequencer {
    /// The sequencer never leaves its well-formed region: the plan stays
    /// well-formed against the trusted height it was assembled for, and a
    /// historical position in flight always indexes into the plan.
    pub open spec fn inv(self) -> bool {
        &&& self.epoch_len >= 1
        &&& plan_wf(self.plan, self.plan_trusted, self.epoch_len as int)
        &&& self.state matches SequencerState::SubmittingHistorical(i) ==> (i as int)
            < self.plan.historical_header_args@.len()
    }

    /// Takes ownership of a plan that was assembled against
    /// `observed_trusted`, ready to start submitting.
    pub fn new(plan: MintArgs, observed_trusted: u64, epoch_len: u64) -> (r: Sequencer)
        requires
            epoch_len >= 1,
            plan_wf(plan, observed_trusted, epoch_len as int),
        ensures
            r.plan == plan,
            r.plan_trusted == observed_trusted,
            r.epoch_len == epoch_len,
            r.state == SequencerState::Idle,
            r.inv(),
    {
        Sequencer { plan, plan_trusted: observed_trusted, epoch_len, state: SequencerState::Idle }
    }

    /// Moves off `Idle` into the first submission: the first historical
    /// bundle when the plan holds any, else the target header bundle.
    pub fn start(&mut self)
        requires
            old(self).inv(),
            old(self).state is Idle,
        ensures
            final(self).plan == old(self).plan,
            final(self).plan_trusted == old(self).plan_trusted,
            final(self).epoch_len == old(self).epoch_len,
            final(self).inv(),
            final(self).state == (if old(self).plan.historical_header_args@.len() > 0 {
                SequencerState::SubmittingHistorical(0usize)
            } else {
                SequencerState::SubmittingTargetHeader
            }),
    {
        if self.plan.historical_header_args.len() > 0 {
            self.state = SequencerState::SubmittingHistorical(0);
        } else {
            self.state = SequencerState::SubmittingTargetHeader;
        }
    }

    /// The bundle the driver must submit in the current state, if any:
    /// `None` in `Idle` and in the terminal states.
    pub fn next_action(&self) -> (r: Option<SubmitAction>)
        ensures
            match self.state {
                SequencerState::SubmittingHistorical(i) => r == Some(
                    SubmitAction::SubmitHistorical(i),
                ),
                SequencerState::SubmittingTargetHeader => r == Some(
                    SubmitAction::SubmitTargetHeader,
                ),
                SequencerState::SubmittingTxProof => r == Some(SubmitAction::SubmitTxProof),
                _ => r is None,
            },
    {
        match self.state {
            SequencerState::SubmittingHistorical(i) => Some(SubmitAction::SubmitHistorical(i)),
            SequencerState::SubmittingTargetHeader => Some(SubmitAction::SubmitTargetHeader),
            SequencerState::SubmittingTxProof => Some(SubmitAction::SubmitTxProof),
            _ => None,
        }
    }

    /// The trusted height the verifier must be observed to hold before the
    /// submission in flight counts as confirmed. The transaction-inclusion
    /// bundle advances nothing: its expected height is the target's, which
    /// the verifier already holds.
    pub fn expected_height(&self) -> (r: u64)
        requires
            self.inv(),
            self.state is SubmittingHistorical || self.state is SubmittingTargetHeader
                || self.state is SubmittingTxProof,
        ensures
            match self.state {
                SequencerState::SubmittingHistorical(i) => r == self.plan.historical_header_args@[
                    i as int
                ].header.height,
                _ => r == self.plan.header_args.header.height,
            },
    {
        match self.state {
            SequencerState::SubmittingHistorical(i) => {
                self.plan.historical_header_args[i].header.height
            },
            _ => self.plan.header_args.header.height,
        }
    }

    /// Takes the trusted height observed after a header-bundle submission.
    /// Reaching the expected height confirms the bundle and moves the
    /// sequencer forward; the height it held before the bundle means the
    /// submission never applied and the same bundle stays due for
    /// resubmission; any other height is fatal, since the plan's chained
    /// verifier heights no longer line up with the verifier.
    pub fn on_observed_height(&mut self, observed: u64)
        requires
            old(self).inv(),
            old(self).state is SubmittingHistorical || old(self).state is SubmittingTargetHeader,
        ensures
            final(self).plan == old(self).plan,
            final(self).plan_trusted == old(self).plan_trusted,
            final(self).epoch_len == old(self).epoch_len,
            final(self).inv(),
            match old(self).state {
                SequencerState::SubmittingHistorical(i) => {
                    let bundle = old(self).plan.historical_header_args@[i as int];
                    final(self).state == (if observed == bundle.header.height {
                        if (i as int) + 1 < old(self).plan.historical_header_args@.len() {
                            SequencerState::SubmittingHistorical((i + 1) as usize)
                        } else {
                            SequencerState::SubmittingTargetHeader
                        }
                    } else if observed == bundle.verifier_height {
                        old(self).state
                    } else {
                        SequencerState::Failed(SubmitFailure::UnexpectedHeight)
                    })
                },
                SequencerState::SubmittingTargetHeader => {
                    let bundle = old(self).plan.header_args;
                    final(self).state == (if observed == bundle.header.height {
                        SequencerState::SubmittingTxProof
                    } else if observed == bundle.verifier_height {
                        old(self).state
                    } else {
                        SequencerState::Failed(SubmitFailure::UnexpectedHeight)
                    })
                },
                _ => false,
            },
    {
        match self.state {
            SequencerState::SubmittingHistorical(i) => {
                let count = self.plan.historical_header_args.len();
                assert(i < count);
                let confirmed = self.plan.historical_header_args[i].header.height;
                let before = self.plan.historical_header_args[i].verifier_height;
                if observed == confirmed {
                    if i + 1 < count {
                        self.state = SequencerState::SubmittingHistorical(i + 1);
                    } else {
                        self.state = SequencerState::SubmittingTargetHeader;
                    }
                } else if observed == before {
                    // The bundle never applied; it stays due.
                } else {
                    self.state = SequencerState::Failed(SubmitFailure::UnexpectedHeight);
                }
            },
            _ => {
                let confirmed = self.plan.header_args.header.height;
                let before = self.plan.header_args.verifier_height;
                if observed == confirmed {
                    self.state = SequencerState::SubmittingTxProof;
                } else if observed == before {
                    // The bundle never applied; it stays due.
                } else {
                    self.state = SequencerState::Failed(SubmitFailure::UnexpectedHeight);
                }
            },
        }
    }

    /// The remote verifier's internal checks rejected the bundle in
    /// flight: fatal, and retrying without replanning would only resubmit
    /// an already-rejected bundle.
    pub fn on_rejected(&mut self)
        requires
            old(self).inv(),
            old(self).state is SubmittingHistorical || old(self).state is SubmittingTargetHeader
                || old(self).state is SubmittingTxProof,
        ensures
            final(self).plan == old(self).plan,
            final(self).plan_trusted == old(self).plan_trusted,
            final(self).epoch_len == old(self).epoch_len,
            final(self).inv(),
            final(self).state == SequencerState::Failed(SubmitFailure::VerifierRejection),
    {
        self.state = SequencerState::Failed(SubmitFailure::VerifierRejection);
    }

    /// Takes the outcome of the final transaction-inclusion submission,
    /// which is only ever attempted after the target header bundle was
    /// confirmed: acceptance completes the run.
    pub fn on_tx_outcome(&mut self, accepted: bool)
        requires
            old(self).inv(),
            old(self).state is SubmittingTxProof,
        ensures
            final(self).plan == old(self).plan,
            final(self).plan_trusted == old(self).plan_trusted,
            final(self).epoch_len == old(self).epoch_len,
            final(self).inv(),
            final(self).state == (if accepted {
                SequencerState::Done
            } else {
                SequencerState::Failed(SubmitFailure::VerifierRejection)
            }),
    {
        if accepted {
            self.state = SequencerState::Done;
        } else {
            self.state = SequencerState::Failed(SubmitFailure::VerifierRejection);
        }
    }
}

} // verus!
