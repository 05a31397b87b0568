use bridge_cli::errors::SubmitFailure;
use bridge_cli::merkle::{build_proof, fold_proof};
use bridge_cli::plan::{assemble_mint_args, CheckpointData, Header, MintArgs};
use bridge_cli::sequencer::{Sequencer, SequencerState, SubmitAction};

fn tx_bytes() -> Vec<u8> {
    vec![5, 6, 7, 8]
}

fn checkpoint(height: u64, tag: u8) -> CheckpointData {
    let mut root = [0u8; 32];
    root[3] = tag;
    CheckpointData {
        header: Header { height, transactions_root: root },
        stakes: vec![1],
        signatures: vec![[2u8; 32]],
    }
}

/// A plan from trusted height 99 to target 305 with epoch length 100:
/// historical checkpoints at 199 and 299.
fn two_step_plan() -> MintArgs {
    let tx_hash = tmelcrypt::hash_single(&tx_bytes()).0;
    let leaves = vec![tx_hash, [11u8; 32]];
    let proof = build_proof(&leaves, &tx_hash).unwrap();
    let root = fold_proof(&proof, &tx_hash);
    let target = CheckpointData {
        header: Header { height: 305, transactions_root: root },
        stakes: vec![1],
        signatures: vec![[2u8; 32]],
    };
    let historical = vec![checkpoint(199, 1), checkpoint(299, 2)];
    assemble_mint_args(99, 100, &historical, &target, tx_bytes(), proof).unwrap()
}

#[test]
fn a_full_run_confirms_every_bundle_in_order() {
    let mut seq = Sequencer::new(two_step_plan(), 99, 100);
    assert_eq!(seq.state, SequencerState::Idle);
    assert_eq!(seq.next_action(), None);

    seq.start();
    assert_eq!(seq.state, SequencerState::SubmittingHistorical(0));
    assert_eq!(seq.next_action(), Some(SubmitAction::SubmitHistorical(0)));
    assert_eq!(seq.expected_height(), 199);

    seq.on_observed_height(199);
    assert_eq!(seq.state, SequencerState::SubmittingHistorical(1));
    assert_eq!(seq.next_action(), Some(SubmitAction::SubmitHistorical(1)));
    assert_eq!(seq.expected_height(), 299);

    seq.on_observed_height(299);
    assert_eq!(seq.state, SequencerState::SubmittingTargetHeader);
    assert_eq!(seq.next_action(), Some(SubmitAction::SubmitTargetHeader));
    assert_eq!(seq.expected_height(), 305);

    seq.on_observed_height(305);
    assert_eq!(seq.state, SequencerState::SubmittingTxProof);
    assert_eq!(seq.next_action(), Some(SubmitAction::SubmitTxProof));

    seq.on_tx_outcome(true);
    assert_eq!(seq.state, SequencerState::Done);
    assert_eq!(seq.next_action(), None);
}

#[test]
fn a_plan_without_history_starts_at_the_target_header() {
    let tx_hash = tmelcrypt::hash_single(&tx_bytes()).0;
    let leaves = vec![tx_hash];
    let proof = build_proof(&leaves, &tx_hash).unwrap();
    let root = fold_proof(&proof, &tx_hash);
    let target = CheckpointData {
        header: Header { height: 199, transactions_root: root },
        stakes: vec![1],
        signatures: vec![[2u8; 32]],
    };
    let plan = assemble_mint_args(150, 100, &Vec::new(), &target, tx_bytes(), proof).unwrap();
    let mut seq = Sequencer::new(plan, 150, 100);
    seq.start();
    assert_eq!(seq.state, SequencerState::SubmittingTargetHeader);
    assert_eq!(seq.expected_height(), 199);
}

#[test]
fn an_unapplied_submission_stays_due() {
    // The trusted height read back is still the pre-bundle height: the
    // submission never applied, and the same bundle stays next in line.
    let mut seq = Sequencer::new(two_step_plan(), 99, 100);
    seq.start();
    seq.on_observed_height(99);
    assert_eq!(seq.state, SequencerState::SubmittingHistorical(0));
    assert_eq!(seq.next_action(), Some(SubmitAction::SubmitHistorical(0)));
}

#[test]
fn an_unexpected_height_is_fatal() {
    // The verifier advanced to a height the plan never predicted: the
    // chained verifier heights no longer line up, so the run stops.
    let mut seq = Sequencer::new(two_step_plan(), 99, 100);
    seq.start();
    seq.on_observed_height(250);
    assert_eq!(seq.state, SequencerState::Failed(SubmitFailure::UnexpectedHeight));
    assert_eq!(seq.next_action(), None);
}

#[test]
fn a_rejected_bundle_is_fatal() {
    let mut seq = Sequencer::new(two_step_plan(), 99, 100);
    seq.start();
    seq.on_observed_height(199);
    seq.on_rejected();
    assert_eq!(seq.state, SequencerState::Failed(SubmitFailure::VerifierRejection));
}

#[test]
fn a_rejected_tx_proof_is_fatal() {
    let mut seq = Sequencer::new(two_step_plan(), 99, 100);
    seq.start();
    seq.on_observed_height(199);
    seq.on_observed_height(299);
    seq.on_observed_height(305);
    seq.on_tx_outcome(false);
    assert_eq!(seq.state, SequencerState::Failed(SubmitFailure::VerifierRejection));
}
