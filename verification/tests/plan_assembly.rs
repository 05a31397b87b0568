use bridge_cli::errors::PlanningError;
use bridge_cli::merkle::{build_proof, fold_proof};
use bridge_cli::plan::{assemble_mint_args, CheckpointData, Header};

fn tx_bytes(tag: u8) -> Vec<u8> {
    vec![tag, tag.wrapping_add(1), tag.wrapping_add(2)]
}

fn tx_hash(tag: u8) -> [u8; 32] {
    tmelcrypt::hash_single(&tx_bytes(tag)).0
}

fn opaque_root(tag: u8) -> [u8; 32] {
    let mut h = [0u8; 32];
    h[7] = tag;
    h
}

fn checkpoint(height: u64, root: [u8; 32]) -> CheckpointData {
    CheckpointData {
        header: Header { height, transactions_root: root },
        stakes: vec![1, 2, 3],
        signatures: vec![[9u8; 32]],
    }
}

/// A target checkpoint at `height` whose block holds the transactions of
/// `tags`, together with the inclusion proof for `target_tag`.
fn target_with_proof(
    height: u64,
    tags: &[u8],
    target_tag: u8,
) -> (CheckpointData, Vec<u8>, bridge_cli::merkle::MerkleProof) {
    let leaves: Vec<[u8; 32]> = tags.iter().map(|t| tx_hash(*t)).collect();
    let proof = build_proof(&leaves, &tx_hash(target_tag)).unwrap();
    let root = fold_proof(&proof, &tx_hash(target_tag));
    (checkpoint(height, root), tx_bytes(target_tag), proof)
}

#[test]
fn crossing_epochs_chains_verifier_heights() {
    // Trusted 99 (epoch 0, canonical checkpoint), target 305 (epoch 3),
    // epoch length 100: historical checkpoints at 199 and 299, and the
    // target bundle validates against 299.
    let (target, transaction, proof) = target_with_proof(305, &[1, 2, 3, 4, 5], 3);
    let historical = vec![checkpoint(199, opaque_root(1)), checkpoint(299, opaque_root(2))];
    let plan = assemble_mint_args(99, 100, &historical, &target, transaction, proof).unwrap();

    let heights: Vec<u64> =
        plan.historical_header_args.iter().map(|b| b.header.height).collect();
    assert_eq!(heights, vec![199, 299]);

    // Chained verifier heights, with no off-by-one.
    assert_eq!(plan.historical_header_args[0].verifier_height, 99);
    assert_eq!(plan.historical_header_args[1].verifier_height, 199);
    assert_eq!(plan.header_args.verifier_height, 299);

    assert_eq!(plan.header_args.header.height, 305);
    assert_eq!(plan.tx_args.block_height, 305);
    assert_eq!(plan.tx_args.tx_index, 2);
}

#[test]
fn same_epoch_plan_has_no_historical_bundles() {
    // Trusted 150, target 199, epoch length 100: no catch-up, and the
    // target bundle validates against the observed trusted height itself.
    let (target, transaction, proof) = target_with_proof(199, &[1, 2], 1);
    let historical: Vec<CheckpointData> = Vec::new();
    let plan = assemble_mint_args(150, 100, &historical, &target, transaction, proof).unwrap();
    assert!(plan.historical_header_args.is_empty());
    assert_eq!(plan.header_args.verifier_height, 150);
    assert_eq!(plan.header_args.header.height, 199);
}

#[test]
fn target_not_ahead_is_rejected_before_anything_else() {
    let (target, transaction, proof) = target_with_proof(199, &[1, 2], 1);
    let historical: Vec<CheckpointData> = Vec::new();
    let r = assemble_mint_args(199, 100, &historical, &target, transaction, proof);
    assert!(matches!(r, Err(PlanningError::TargetNotAhead)));
}

#[test]
fn wrong_checkpoint_heights_are_rejected() {
    // The plan calls for checkpoints 199 and 299; handing 198 is fatal.
    let (target, transaction, proof) = target_with_proof(305, &[1, 2, 3], 2);
    let historical = vec![checkpoint(198, opaque_root(1)), checkpoint(299, opaque_root(2))];
    let r = assemble_mint_args(99, 100, &historical, &target, transaction, proof);
    assert!(matches!(r, Err(PlanningError::CheckpointMismatch)));
}

#[test]
fn missing_checkpoints_are_rejected() {
    // Two checkpoints are required, none are handed in.
    let (target, transaction, proof) = target_with_proof(305, &[1, 2, 3], 2);
    let historical: Vec<CheckpointData> = Vec::new();
    let r = assemble_mint_args(99, 100, &historical, &target, transaction, proof);
    assert!(matches!(r, Err(PlanningError::CheckpointMismatch)));
}

#[test]
fn empty_stake_data_is_rejected() {
    let (target, transaction, proof) = target_with_proof(305, &[1, 2, 3], 2);
    let mut bad = checkpoint(199, opaque_root(1));
    bad.stakes = Vec::new();
    let historical = vec![bad, checkpoint(299, opaque_root(2))];
    let r = assemble_mint_args(99, 100, &historical, &target, transaction, proof);
    assert!(matches!(r, Err(PlanningError::IncompleteCheckpoint)));
}

#[test]
fn empty_signature_data_on_target_is_rejected() {
    let (mut target, transaction, proof) = target_with_proof(199, &[1, 2], 1);
    target.signatures = Vec::new();
    let historical: Vec<CheckpointData> = Vec::new();
    let r = assemble_mint_args(150, 100, &historical, &target, transaction, proof);
    assert!(matches!(r, Err(PlanningError::IncompleteCheckpoint)));
}

#[test]
fn proof_that_folds_elsewhere_is_rejected() {
    // The target header carries a different transaction root than the
    // proof folds to.
    let (mut target, transaction, proof) = target_with_proof(199, &[1, 2], 1);
    target.header.transactions_root = opaque_root(42);
    let historical: Vec<CheckpointData> = Vec::new();
    let r = assemble_mint_args(150, 100, &historical, &target, transaction, proof);
    assert!(matches!(r, Err(PlanningError::ProofMismatch)));
}

#[test]
fn the_planning_entry_point_builds_the_whole_plan() {
    // Planning from the raw fetch results in one pass: trusted 99, target
    // 305, epoch length 100, a block of four transactions.
    let transaction = tx_bytes(7);
    let leaves: Vec<[u8; 32]> = vec![tx_hash(5), tx_hash(6), tx_hash(7), tx_hash(8)];
    let proof = build_proof(&leaves, &tx_hash(7)).unwrap();
    let root = fold_proof(&proof, &tx_hash(7));
    let target = checkpoint(305, root);
    let historical = vec![checkpoint(199, opaque_root(1)), checkpoint(299, opaque_root(2))];
    let plan = bridge_cli::plan::get_mint_args(99, 100, &historical, &target, transaction, &leaves)
        .unwrap();
    assert_eq!(plan.historical_header_args.len(), 2);
    assert_eq!(plan.header_args.verifier_height, 299);
    assert_eq!(plan.tx_args.tx_index, 2);
    assert_eq!(plan.tx_args.block_height, 305);
    assert_eq!(plan.tx_args.proof, proof.bytes);
}

#[test]
fn a_transaction_absent_from_its_block_stops_planning() {
    // The transaction's digest occurs nowhere in the named block: planning
    // fails before the remote verifier is ever involved.
    let transaction = tx_bytes(9);
    let leaves: Vec<[u8; 32]> = vec![tx_hash(5), tx_hash(6)];
    let target = checkpoint(305, opaque_root(3));
    let historical = vec![checkpoint(199, opaque_root(1)), checkpoint(299, opaque_root(2))];
    let r = bridge_cli::plan::get_mint_args(99, 100, &historical, &target, transaction, &leaves);
    assert!(matches!(r, Err(PlanningError::TxNotInBlock)));
}

#[test]
fn long_catchup_chains_every_checkpoint() {
    // Epoch length 10, trusted 9, target 55: checkpoints 19, 29, 39, 49.
    let (target, transaction, proof) = target_with_proof(55, &[1, 2, 3, 4, 5, 6], 4);
    let historical = vec![
        checkpoint(19, opaque_root(1)),
        checkpoint(29, opaque_root(2)),
        checkpoint(39, opaque_root(3)),
        checkpoint(49, opaque_root(4)),
    ];
    let plan = assemble_mint_args(9, 10, &historical, &target, transaction, proof).unwrap();
    let vh: Vec<u64> = plan.historical_header_args.iter().map(|b| b.verifier_height).collect();
    assert_eq!(vh, vec![9, 19, 29, 39]);
    assert_eq!(plan.header_args.verifier_height, 49);
    // Each bundle advances the verifier.
    for b in &plan.historical_header_args {
        assert!(b.verifier_height < b.header.height);
    }
    assert!(plan.header_args.verifier_height < plan.header_args.header.height);
}
