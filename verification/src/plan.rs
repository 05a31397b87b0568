use vstd::prelude::*;

use crate::epoch::{spec_plan_epochs, lemma_plan_checkpoints, plan_epochs, heights_as_ints};
use crate::errors::PlanningError;
use crate::merkle::{
    MerkleProof,
    hash_of,
    level_view,
    spec_fold_proof,
    spec_merkle_root,
    leaf_present,
    build_proof,
    digest_bytes,
    hashes_equal,
    fold_proof,
};

verus! {

/// Home-chain block metadata the engine reads: enough to chain trust by
/// height and to anchor a Merkle inclusion proof. Immutable once fetched.
#[derive(Clone, Copy, Debug)]
pub struct Header {
    /// Ordinal of the block in the home chain.
    pub height: u64,
    /// Root of the binary Merkle tree over the block's transaction hashes.
    pub transactions_root: [u8; 32],
}

/// Everything fetched for one checkpoint height: the header, the stake set
/// valid for signing it (an opaque byte blob, forwarded verbatim to the
/// remote verifier), and the signatures over the header hash.
#[derive(Clone, Debug)]
pub struct CheckpointData {
    pub header: Header,
    pub stakes: Vec<u8>,
    pub signatures: Vec<[u8; 32]>,
}

/// One header submission: the header, the trusted height the remote
/// verifier is expected to hold immediately before this bundle is
/// submitted, and the stake and signature material validating the header.
#[derive(Clone, Debug)]
pub struct HeaderVerificationArgs {
    pub header: Header,
    pub verifier_height: u64,
    pub stakes: Vec<u8>,
    pub signatures: Vec<[u8; 32]>,
}

/// The transaction-inclusion submission: the encoded transaction, its
/// zero-based position in its block's transaction list, the containing
/// block's height, and the sibling hashes from leaf to root.
#[derive(Clone, Debug)]
pub struct TxVerificationArgs {
    pub transaction: Vec<u8>,
    pub tx_index: u32,
    pub block_height: u64,
    pub proof: Vec<[u8; 32]>,
}

/// A complete, dependency-ordered submission plan: zero or more historical
/// catch-up bundles, the target-header bundle, and the transaction-inclusion
/// bundle. Constructed once per bridging request and consumed exactly once.
#[derive(Clone, Debug)]
pub struct MintArgs {
    pub historical_header_args: Vec<HeaderVerificationArgs>,
    pub header_args: HeaderVerificationArgs,
    pub tx_args: TxVerificationArgs,
}

/// A single bundle is internally sound: it advances the verifier (its
/// verifier height lies strictly below its header's height) and carries
/// stake and signature material.
pub open spec fn bundle_wf(bundle: HeaderVerificationArgs) -> bool {
    &&& bundle.verifier_height < bundle.header.height
    &&& bundle.stakes@.len() > 0
    &&& bundle.signatures@.len() > 0
}

/// The historical bundles chain their verifier heights: the first picks up
/// from the observed trusted height, and each subsequent bundle from the
/// header height of the bundle before it.
pub open spec fn chained(hist: Seq<HeaderVerificationArgs>, trusted: u64) -> bool {
    &&& hist.len() > 0 ==> hist[0].verifier_height == trusted
    &&& forall|i: int|
        1 <= i < hist.len() ==> (#[trigger] hist[i]).verifier_height == hist[
            i - 1
        ].header.height
}

/// The checkpoint heights a sequence of historical bundles covers.
pub open spec fn heights_of(hist: Seq<HeaderVerificationArgs>) -> Seq<int> {
    hist.map_values(|bundle: HeaderVerificationArgs| bundle.header.height as int)
}

/// The trusted height the verifier holds once every historical bundle has
/// been applied: the last checkpoint's height, or the observed trusted
/// height when no catch-up was needed.
pub open spec fn target_base_height(hist: Seq<HeaderVerificationArgs>, trusted: u64) -> int {
    if hist.len() == 0 {
        trusted as int
    } else {
        hist.last().header.height as int
    }
}

/// Every invariant a submission plan must satisfy before anything is sent:
/// the target lies ahead of the trusted height; the historical bundles
/// cover exactly the planned epoch checkpoints, well-formed and chained;
/// the target bundle picks up where they end; and the inclusion proof folds
/// from the transaction's digest back to the target header's transaction
/// root at the recorded index.
#[verifier::opaque]
pub open spec fn plan_wf(plan: MintArgs, trusted: u64, epoch_len: int) -> bool {
    &&& trusted < plan.header_args.header.height
    &&& heights_of(plan.historical_header_args@) == spec_plan_epochs(
        trusted as int,
        plan.header_args.header.height as int,
        epoch_len,
    )
    &&& forall|i: int|
        0 <= i < plan.historical_header_args@.len() ==> bundle_wf(
            #[trigger] plan.historical_header_args@[i],
        )
    &&& chained(plan.historical_header_args@, trusted)
    &&& bundle_wf(plan.header_args)
    &&& plan.header_args.verifier_height == target_base_height(
        plan.historical_header_args@,
        trusted,
    )
    &&& plan.tx_args.block_height == plan.header_args.header.height
    &&& spec_fold_proof(
        level_view(plan.tx_args.proof@),
        hash_of(plan.tx_args.transaction@),
        plan.tx_args.tx_index as int,
    ) == plan.header_args.header.transactions_root@
}

/// In a well-formed plan the verifier heights chain without any off-by-one:
/// the first historical bundle validates against the observed trusted
/// height, every later one against the checkpoint before it, and the target
/// bundle against the last checkpoint (or the trusted height directly when
/// no catch-up was needed).
pub proof fn lemma_plan_heights_chain(plan: MintArgs, trusted: u64, epoch_len: int)
    requires
        plan_wf(plan, trusted, epoch_len),
    ensures
        plan.historical_header_args@.len() > 0 ==> plan.historical_header_args@[0].verifier_height
            == trusted,
        forall|i: int|
            1 <= i < plan.historical_header_args@.len()
                ==> (#[trigger] plan.historical_header_args@[i]).verifier_height
                == plan.historical_header_args@[i - 1].header.height,
        plan.historical_header_args@.len() == 0 ==> plan.header_args.verifier_height == trusted,
        plan.historical_header_args@.len() > 0 ==> plan.header_args.verifier_height
            == plan.historical_header_args@.last().header.height,
        forall|i: int|
            0 <= i < plan.historical_header_args@.len()
                ==> (#[trigger] plan.historical_header_args@[i]).verifier_height < plan
                .historical_header_args@[i].header.height,
        plan.header_args.verifier_height < plan.header_args.header.height,
{
    reveal(plan_wf);
}

/// Whether the target checkpoint actually lies ahead of the trusted height.
pub open spec fn target_ahead(target: CheckpointData, trusted: u64) -> bool {
    trusted < target.header.height
}

/// The checkpoint heights a sequence of fetched checkpoints carries.
pub open spec fn heights_of_checkpoints(historical: Seq<CheckpointData>) -> Seq<int> {
    historical.map_values(|c: CheckpointData| c.header.height as int)
}

/// Whether the fetched historical checkpoints carry exactly the planned
/// checkpoint heights, in order.
pub open spec fn heights_match(
    historical: Seq<CheckpointData>,
    trusted: u64,
    target_height: u64,
    epoch_len: int,
) -> bool {
    heights_of_checkpoints(historical) == spec_plan_epochs(
        trusted as int,
        target_height as int,
        epoch_len,
    )
}

/// A fetched checkpoint carries both stake and signature material.
pub open spec fn checkpoint_complete(c: CheckpointData) -> bool {
    &&& c.stakes@.len() > 0
    &&& c.signatures@.len() > 0
}

/// Every required checkpoint, the target included, is complete.
pub open spec fn all_complete(historical: Seq<CheckpointData>, target: CheckpointData) -> bool {
    &&& forall|i: int| 0 <= i < historical.len() ==> checkpoint_complete(#[trigger] historical[i])
    &&& checkpoint_complete(target)
}

/// Whether the inclusion proof folds from the transaction's digest back to
/// the target header's transaction root.
pub open spec fn proof_folds(
    target: CheckpointData,
    transaction: Seq<u8>,
    proof: MerkleProof,
) -> bool {
    spec_fold_proof(level_view(proof.bytes@), hash_of(transaction), proof.tx_index as int)
        == target.header.transactions_root@
}

fn copy_bytes(src: &Vec<u8>) -> (r: Vec<u8>)
    ensures
        r@ == src@,
{
    let mut out: Vec<u8> = Vec::new();
    let mut i: usize = 0;
    while i < src.len()
        invariant
            i <= src@.len(),
            out@ =~= src@.subrange(0, i as int),
        decreases src@.len() - i,
    {
        out.push(src[i]);
        i = i + 1;
    }
    assert(out@ =~= src@);
    out
}

fn copy_hashes(src: &Vec<[u8; 32]>) -> (r: Vec<[u8; 32]>)
    ensures
        r@ == src@,
{
    let mut out: Vec<[u8; 32]> = Vec::new();
    let mut i: usize = 0;
    while i < src.len()
        invariant
            i <= src@.len(),
            out@ =~= src@.subrange(0, i as int),
        decreases src@.len() - i,
    {
        out.push(src[i]);
        i = i + 1;
    }
    assert(out@ =~= src@);
    out
}

/// Assembles the fetched material into a complete submission plan, or
/// rejects it: the target must lie ahead of the observed trusted height,
/// the historical checkpoints must cover exactly the planned epochs, every
/// checkpoint must carry stake and signature material, and the inclusion
/// proof must fold back to the target header's transaction root. This pass
/// performs no fetching and precedes every submission.
#[verifier::loop_isolation(false)]
pub fn assemble_mint_args(
    observed_trusted: u64,
    epoch_len: u64,
    historical: &Vec<CheckpointData>,
    target: &CheckpointData,
    transaction: Vec<u8>,
    proof: MerkleProof,
) -> (r: Result<MintArgs, PlanningError>)
    requires
        epoch_len >= 1,
    ensures
        match r {
            Ok(plan) => {
                &&& target_ahead(*target, observed_trusted)
                &&& heights_match(
                    historical@,
                    observed_trusted,
                    target.header.height,
                    epoch_len as int,
                )
                &&& all_complete(historical@, *target)
                &&& proof_folds(*target, transaction@, proof)
                &&& plan_wf(plan, observed_trusted, epoch_len as int)
                &&& plan.header_args.header == target.header
                &&& plan.header_args.stakes@ == target.stakes@
                &&& plan.header_args.signatures@ == target.signatures@
                &&& plan.historical_header_args@.len() == historical@.len()
                &&& forall|i: int|
                    0 <= i < historical@.len() ==> (#[trigger] plan.historical_header_args@[i])
                        .header == historical@[i].header
                &&& forall|i: int|
                    0 <= i < historical@.len() ==> (#[trigger] plan.historical_header_args@[i])
                        .stakes@ == historical@[i].stakes@
                &&& forall|i: int|
                    0 <= i < historical@.len() ==> (#[trigger] plan.historical_header_args@[i])
                        .signatures@ == historical@[i].signatures@
                &&& plan.tx_args.transaction@ == transaction@
                &&& plan.tx_args.tx_index == proof.tx_index
                &&& plan.tx_args.proof@ == proof.bytes@
                &&& plan.tx_args.block_height == target.header.height
            },
            Err(e) => match e {
                PlanningError::TargetNotAhead => !target_ahead(*target, observed_trusted),
                PlanningError::CheckpointMismatch => target_ahead(*target, observed_trusted)
                    && !heights_match(
                    historical@,
                    observed_trusted,
                    target.header.height,
                    epoch_len as int,
                ),
                PlanningError::IncompleteCheckpoint => target_ahead(*target, observed_trusted)
                    && heights_match(
                    historical@,
                    observed_trusted,
                    target.header.height,
                    epoch_len as int,
                ) && !all_complete(historical@, *target),
                PlanningError::ProofMismatch => target_ahead(*target, observed_trusted)
                    && heights_match(
                    historical@,
                    observed_trusted,
                    target.header.height,
                    epoch_len as int,
                ) && all_complete(historical@, *target) && !proof_folds(
                    *target,
                    transaction@,
                    proof,
                ),
                _ => false,
            },
        },
{
    let target_height = target.header.height;
    if target_height <= observed_trusted {
        return Err(PlanningError::TargetNotAhead);
    }
    let planned = match plan_epochs(observed_trusted, target_height, epoch_len) {
        Ok(p) => p,
        Err(e) => {
            return Err(e);
        },
    };
    if historical.len() != planned.len() {
        assert(heights_of_checkpoints(historical@).len() != spec_plan_epochs(
            observed_trusted as int,
            target_height as int,
            epoch_len as int,
        ).len());
        return Err(PlanningError::CheckpointMismatch);
    }
    let count = historical.len();
    let mut i: usize = 0;
    while i < count
        invariant
            count == historical@.len(),
            count == planned@.len(),
            i <= count,
            heights_as_ints(planned@) == spec_plan_epochs(
                observed_trusted as int,
                target_height as int,
                epoch_len as int,
            ),
            forall|j: int|
                0 <= j < i ==> (#[trigger] historical@[j]).header.height == planned@[j],
        decreases count - i,
    {
        if historical[i].header.height != planned[i] {
            assert(heights_of_checkpoints(historical@)[i as int] != spec_plan_epochs(
                observed_trusted as int,
                target_height as int,
                epoch_len as int,
            )[i as int]);
            return Err(PlanningError::CheckpointMismatch);
        }
        i = i + 1;
    }
    assert(heights_of_checkpoints(historical@) =~= spec_plan_epochs(
        observed_trusted as int,
        target_height as int,
        epoch_len as int,
    ));
    let mut k: usize = 0;
    while k < count
        invariant
            count == historical@.len(),
            k <= count,
            forall|j: int| 0 <= j < k ==> checkpoint_complete(#[trigger] historical@[j]),
        decreases count - k,
    {
        if historical[k].stakes.len() == 0 || historical[k].signatures.len() == 0 {
            return Err(PlanningError::IncompleteCheckpoint);
        }
        k = k + 1;
    }
    if target.stakes.len() == 0 || target.signatures.len() == 0 {
        return Err(PlanningError::IncompleteCheckpoint);
    }
    let leaf = digest_bytes(&transaction);
    let folded = fold_proof(&proof, &leaf);
    if !hashes_equal(&folded, &target.header.transactions_root) {
        return Err(PlanningError::ProofMismatch);
    }
    proof {
        if planned@.len() > 0 {
            lemma_plan_checkpoints(
                observed_trusted as int,
                target_height as int,
                epoch_len as int,
            );
        }
    }
    let mut hist: Vec<HeaderVerificationArgs> = Vec::new();
    let mut b: usize = 0;
    while b < count
        invariant
            count == historical@.len(),
            b <= count,
            hist@.len() == b,
            forall|j: int|
                0 <= j < b ==> (#[trigger] hist@[j]).header == historical@[j].header,
            forall|j: int| 0 <= j < b ==> (#[trigger] hist@[j]).stakes@ == historical@[j].stakes@,
            forall|j: int|
                0 <= j < b ==> (#[trigger] hist@[j]).signatures@ == historical@[j].signatures@,
            forall|j: int|
                1 <= j < b ==> (#[trigger] hist@[j]).verifier_height == historical@[
                    j - 1
                ].header.height,
            b > 0 ==> hist@[0].verifier_height == observed_trusted,
        decreases count - b,
    {
        let verifier_height: u64 = if b == 0 {
            observed_trusted
        } else {
            historical[b - 1].header.height
        };
        let bundle = HeaderVerificationArgs {
            header: historical[b].header,
            verifier_height,
            stakes: copy_bytes(&historical[b].stakes),
            signatures: copy_hashes(&historical[b].signatures),
        };
        hist.push(bundle);
        b = b + 1;
    }
    let base_height: u64 = if count == 0 {
        observed_trusted
    } else {
        historical[count - 1].header.height
    };
    let header_args = HeaderVerificationArgs {
        header: target.header,
        verifier_height: base_height,
        stakes: copy_bytes(&target.stakes),
        signatures: copy_hashes(&target.signatures),
    };
    let tx_args = TxVerificationArgs {
        transaction,
        tx_index: proof.tx_index,
        block_height: target_height,
        proof: proof.bytes,
    };
    let plan = MintArgs { historical_header_args: hist, header_args, tx_args };
    proof {
        reveal(plan_wf);
        let spec_plan = spec_plan_epochs(
            observed_trusted as int,
            target_height as int,
            epoch_len as int,
        );
        assert(heights_of(plan.historical_header_args@) =~= spec_plan);
        assert forall|j: int| 0 <= j < plan.historical_header_args@.len() implies bundle_wf(
            #[trigger] plan.historical_header_args@[j],
        ) by {
            assert(checkpoint_complete(historical@[j]));
            assert(historical@[j].header.height == planned@[j]);
            assert(planned@[j] as int == spec_plan[j]);
            if j > 0 {
                assert(historical@[j - 1].header.height == planned@[j - 1]);
                assert(spec_plan[j - 1] < spec_plan[j]);
            }
        }
    }
    Ok(plan)
}

/// The whole planning phase in one pass, no fetching and no submission:
/// digests the transaction, locates it among the target block's
/// transaction hashes, builds its inclusion proof, and assembles the
/// submission plan. On success the block's Merkle root equals the target
/// header's transaction root and the plan is well-formed; each way the
/// request can be wrong maps to exactly one planning error, and every
/// failure leaves the remote verifier untouched.
pub fn get_mint_args(
    observed_trusted: u64,
    epoch_len: u64,
    historical: &Vec<CheckpointData>,
    target: &CheckpointData,
    transaction: Vec<u8>,
    block_tx_hashes: &Vec<[u8; 32]>,
) -> (r: Result<MintArgs, PlanningError>)
    requires
        epoch_len >= 1,
        block_tx_hashes@.len() <= u32::MAX,
    ensures
        match r {
            Ok(plan) => {
                &&& leaf_present(block_tx_hashes@, hash_of(transaction@))
                &&& target_ahead(*target, observed_trusted)
                &&& heights_match(
                    historical@,
                    observed_trusted,
                    target.header.height,
                    epoch_len as int,
                )
                &&& all_complete(historical@, *target)
                &&& spec_merkle_root(level_view(block_tx_hashes@))
                    == target.header.transactions_root@
                &&& plan_wf(plan, observed_trusted, epoch_len as int)
                &&& plan.header_args.header == target.header
                &&& plan.tx_args.transaction@ == transaction@
                &&& plan.tx_args.block_height == target.header.height
                &&& plan.tx_args.tx_index < block_tx_hashes@.len()
                &&& level_view(block_tx_hashes@)[plan.tx_args.tx_index as int] == hash_of(
                    transaction@,
                )
                &&& plan.historical_header_args@.len() == historical@.len()
            },
            Err(e) => match e {
                PlanningError::TxNotInBlock => !leaf_present(
                    block_tx_hashes@,
                    hash_of(transaction@),
                ),
                PlanningError::TargetNotAhead => leaf_present(
                    block_tx_hashes@,
                    hash_of(transaction@),
                ) && !target_ahead(*target, observed_trusted),
                PlanningError::CheckpointMismatch => leaf_present(
                    block_tx_hashes@,
                    hash_of(transaction@),
                ) && target_ahead(*target, observed_trusted) && !heights_match(
                    historical@,
                    observed_trusted,
                    target.header.height,
                    epoch_len as int,
                ),
                PlanningError::IncompleteCheckpoint => leaf_present(
                    block_tx_hashes@,
                    hash_of(transaction@),
                ) && target_ahead(*target, observed_trusted) && heights_match(
                    historical@,
                    observed_trusted,
                    target.header.height,
                    epoch_len as int,
                ) && !all_complete(historical@, *target),
                PlanningError::ProofMismatch => leaf_present(
                    block_tx_hashes@,
                    hash_of(transaction@),
                ) && target_ahead(*target, observed_trusted) && heights_match(
                    historical@,
                    observed_trusted,
                    target.header.height,
                    epoch_len as int,
                ) && all_complete(historical@, *target) && spec_merkle_root(
                    level_view(block_tx_hashes@),
                ) != target.header.transactions_root@,
            },
        },
{
    let tx_digest = digest_bytes(&transaction);
    let proof = match build_proof(block_tx_hashes, &tx_digest) {
        Ok(p) => p,
        Err(e) => {
            return Err(e);
        },
    };
    assemble_mint_args(observed_trusted, epoch_len, historical, target, transaction, proof)
}

} // verus!
