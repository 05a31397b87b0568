use vstd::prelude::*;

use crate::errors::PlanningError;

verus! {

use vstd::arithmetic::div_mod::{
    lemma_fundamental_div_mod,
    lemma_fundamental_div_mod_converse_div,
};
use vstd::arithmetic::mul::{
    lemma_mul_inequality,
    lemma_mul_strict_inequality,
    lemma_mul_is_distributive_add_other_way,
    lemma_mul_is_commutative,
};

/// Epoch ordinal of a block height: heights are grouped into contiguous,
/// non-overlapping ranges of `epoch_len` blocks each.
pub open spec fn epoch_of(height: int, epoch_len: int) -> int {
    height / epoch_len
}

/// The canonical checkpoint of an epoch: the last block height of that epoch.
pub open spec fn checkpoint_of(epoch: int, epoch_len: int) -> int {
    (epoch + 1) * epoch_len - 1
}

/// The checkpoint heights a remote verifier trusted at `trusted` must ingest,
/// in ascending order, before it can validate a header at `target`: one per
/// epoch strictly between the trusted epoch and the target epoch. A verifier
/// can validate a header using the stake set of the epoch immediately
/// preceding it, so a target in the trusted epoch or its immediate successor
/// needs no historical checkpoints at all.
pub open spec fn spec_plan_epochs(trusted: int, target: int, epoch_len: int) -> Seq<int> {
    if epoch_of(target, epoch_len) <= epoch_of(trusted, epoch_len) + 1 {
        Seq::empty()
    } else {
        Seq::new(
            (epoch_of(target, epoch_len) - epoch_of(trusted, epoch_len) - 1) as nat,
            |i: int| checkpoint_of(epoch_of(trusted, epoch_len) + 1 + i, epoch_len),
        )
    }
}

/// A checkpoint is the last height of its epoch: taking the epoch of the
/// checkpoint of `epoch` gives `epoch` back.
pub proof fn lemma_epoch_of_checkpoint(epoch: int, epoch_len: int)
    requires
        epoch_len >= 1,
        epoch >= 0,
    ensures
        epoch_of(checkpoint_of(epoch, epoch_len), epoch_len) == epoch,
{
    lemma_mul_is_distributive_add_other_way(epoch_len, epoch, 1);
    assert(checkpoint_of(epoch, epoch_len) == epoch * epoch_len + (epoch_len - 1));
    lemma_fundamental_div_mod_converse_div(
        epoch * epoch_len + (epoch_len - 1),
        epoch_len,
        epoch,
        epoch_len - 1,
    );
}

/// Every height lies strictly below the checkpoint-successor of its epoch,
/// and no lower than the first height of its epoch.
pub proof fn lemma_epoch_bounds(height: int, epoch_len: int)
    requires
        epoch_len >= 1,
        height >= 0,
    ensures
        epoch_of(height, epoch_len) * epoch_len <= height,
        height <= checkpoint_of(epoch_of(height, epoch_len), epoch_len),
{
    lemma_fundamental_div_mod(height, epoch_len);
    lemma_mul_is_commutative(epoch_len, epoch_of(height, epoch_len));
    lemma_mul_is_distributive_add_other_way(
        epoch_len,
        epoch_of(height, epoch_len),
        1,
    );
}

/// When the target height lies in the trusted epoch or its immediate
/// successor, the plan is empty: the target header bundle alone suffices.
pub proof fn lemma_plan_empty(trusted: int, target: int, epoch_len: int)
    requires
        epoch_len >= 1,
        0 <= trusted < target,
        epoch_of(target, epoch_len) <= epoch_of(trusted, epoch_len) + 1,
    ensures
        spec_plan_epochs(trusted, target, epoch_len).len() == 0,
{
}

/// When the target lies `k >= 1` full epochs beyond the epoch after the
/// trusted one, the plan holds exactly `k` checkpoint heights: one per epoch
/// strictly between the trusted and target epochs, each the last height of
/// its epoch, in strictly increasing order with no epoch skipped.
pub proof fn lemma_plan_checkpoints(trusted: int, target: int, epoch_len: int)
    requires
        epoch_len >= 1,
        0 <= trusted < target,
        epoch_of(target, epoch_len) > epoch_of(trusted, epoch_len) + 1,
    ensures
        ({
            let plan = spec_plan_epochs(trusted, target, epoch_len);
            let first = epoch_of(trusted, epoch_len) + 1;
            &&& plan.len() == epoch_of(target, epoch_len) - epoch_of(trusted, epoch_len) - 1
            &&& plan.len() >= 1
            &&& forall|i: int|
                0 <= i < plan.len() ==> #[trigger] plan[i] == checkpoint_of(first + i, epoch_len)
            &&& forall|i: int|
                0 <= i < plan.len() ==> epoch_of(#[trigger] plan[i], epoch_len) == first + i
            &&& forall|i: int, j: int| 0 <= i < j < plan.len() ==> plan[i] < plan[j]
            &&& trusted < plan[0]
            &&& plan[plan.len() - 1] < target
        }),
{
    let plan = spec_plan_epochs(trusted, target, epoch_len);
    let first = epoch_of(trusted, epoch_len) + 1;
    assert forall|i: int| 0 <= i < plan.len() implies epoch_of(
        #[trigger] plan[i],
        epoch_len,
    ) == first + i by {
        lemma_epoch_of_checkpoint(first + i, epoch_len);
    }
    assert forall|i: int, j: int| 0 <= i < j < plan.len() implies plan[i] < plan[j] by {
        lemma_mul_strict_inequality(first + i + 1, first + j + 1, epoch_len);
    }
    assert(trusted < plan[0]) by {
        lemma_epoch_bounds(trusted, epoch_len);
        lemma_mul_inequality(epoch_of(trusted, epoch_len) + 1, first + 1, epoch_len);
    }
    assert(plan[plan.len() - 1] < target) by {
        lemma_epoch_bounds(target, epoch_len);
        lemma_mul_inequality(first + (plan.len() - 1) + 1, epoch_of(target, epoch_len), epoch_len);
    }
}

/// Planning is idempotent: two plans drawn from the same trusted height,
/// target height, and epoch length are the same plan.
pub proof fn lemma_plan_idempotent(
    first_run: Seq<int>,
    second_run: Seq<int>,
    trusted: int,
    target: int,
    epoch_len: int,
)
    requires
        first_run == spec_plan_epochs(trusted, target, epoch_len),
        second_run == spec_plan_epochs(trusted, target, epoch_len),
    ensures
        first_run == second_run,
{
}

/// The integer values of a sequence of block heights.
pub open spec fn heights_as_ints(heights: Seq<u64>) -> Seq<int> {
    heights.map_values(|h: u64| h as int)
}

/// Computes the ordered checkpoint heights the verifier must ingest before
/// the target header bundle, or reports that the request is caller misuse
/// because the target is not strictly ahead of the trusted height.
pub fn plan_epochs(trusted: u64, target: u64, epoch_len: u64) -> (r: Result<
    Vec<u64>,
    PlanningError,
>)
    requires
        epoch_len >= 1,
    ensures
        match r {
            Ok(plan) => {
                &&& trusted < target
                &&& heights_as_ints(plan@) == spec_plan_epochs(
                    trusted as int,
                    target as int,
                    epoch_len as int,
                )
            },
            Err(e) => {
                &&& target <= trusted
                &&& e == PlanningError::TargetNotAhead
            },
        },
{
    if target <= trusted {
        return Err(PlanningError::TargetNotAhead);
    }
    let trusted_epoch: u64 = trusted / epoch_len;
    let target_epoch: u64 = target / epoch_len;
    if target_epoch <= trusted_epoch + 1 {
        let plan: Vec<u64> = Vec::new();
        assert(heights_as_ints(plan@) =~= spec_plan_epochs(
            trusted as int,
            target as int,
            epoch_len as int,
        ));
        return Ok(plan);
    }
    proof {
        lemma_epoch_bounds(target as int, epoch_len as int);
    }
    let mut plan: Vec<u64> = Vec::new();
    let mut epoch: u64 = trusted_epoch + 1;
    while epoch < target_epoch
        invariant
            epoch_len >= 1,
            trusted_epoch == epoch_of(trusted as int, epoch_len as int),
            target_epoch == epoch_of(target as int, epoch_len as int),
            trusted_epoch + 1 <= epoch <= target_epoch,
            target_epoch * epoch_len <= target,
            plan@.len() == epoch - trusted_epoch - 1,
            forall|i: int|
                0 <= i < plan@.len() ==> #[trigger] plan@[i] == checkpoint_of(
                    trusted_epoch + 1 + i,
                    epoch_len as int,
                ),
        decreases target_epoch - epoch,
    {
        proof {
            lemma_mul_inequality(epoch + 1, target_epoch as int, epoch_len as int);
            lemma_mul_is_distributive_add_other_way(epoch_len as int, epoch as int, 1);
        }
        let cp: u64 = epoch * epoch_len + (epoch_len - 1);
        plan.push(cp);
        epoch = epoch + 1;
    }
    assert(heights_as_ints(plan@) =~= spec_plan_epochs(
        trusted as int,
        target as int,
        epoch_len as int,
    ));
    Ok(plan)
}

} // verus!
