//! What holds of the life of a deployment whatever the calls: how the
//! reorganization counters follow the history of the block pointer, that a
//! graft is looked up without effect and is passed over once its data was
//! copied, and that a deployment is marked as synced once and for all.

use crate::block::BlockPointerView;
use crate::deployment::{
    advanced, forward, graft_copied, graft_of, graft_yields, is_synced, mark_synced, reverted,
    unfailed, Graft,
};
use crate::entity::{initial_record, DeploymentEntityView};
use crate::error::StoreError;
use crate::records::{deployment_is, DeploymentView, SubgraphHealth};
use crate::table::{
    any_row, first_row, first_where, lemma_first_found, lemma_first_where,
    lemma_first_where_update,
};
use vstd::prelude::*;

verus! {

/// One step in the history of a block pointer.
pub enum BlockStep {
    /// The pointer advanced to a block.
    Advance(BlockPointerView),
    /// The pointer was reverted to a block.
    Revert(BlockPointerView),
}

/// A record after one step.
pub open spec fn after_step(row: DeploymentView, step: BlockStep) -> DeploymentView {
    match step {
        BlockStep::Advance(ptr) => advanced(row, ptr),
        BlockStep::Revert(ptr) => reverted(row, ptr),
    }
}

/// A record after the steps of `steps`, taken in order.
pub open spec fn after_steps(row: DeploymentView, steps: Seq<BlockStep>) -> DeploymentView
    decreases steps.len(),
{
    if steps.len() == 0 {
        row
    } else {
        after_step(after_steps(row, steps.drop_last()), steps.last())
    }
}

/// How many steps of `steps` are reverts.
pub open spec fn reverts(steps: Seq<BlockStep>) -> nat
    decreases steps.len(),
{
    if steps.len() == 0 {
        0
    } else {
        reverts(steps.drop_last()) + if steps.last() is Revert {
            1nat
        } else {
            0nat
        }
    }
}

/// How many reverts stand at the end of `steps`, after the last advance.
pub open spec fn trailing_reverts(steps: Seq<BlockStep>) -> nat
    decreases steps.len(),
{
    if steps.len() == 0 {
        0
    } else if steps.last() is Revert {
        trailing_reverts(steps.drop_last()) + 1
    } else {
        0
    }
}

/// Whether some step of `steps` is an advance.
pub open spec fn advances(steps: Seq<BlockStep>) -> bool {
    exists|i: int| 0 <= i < steps.len() && #[trigger] steps[i] is Advance
}

/// The current reorganization depth after `steps`, for a record that
/// started at the depth `start`: the reverts since the last advance, on top
/// of `start` where the pointer never advanced.
pub open spec fn depth_after(start: int, steps: Seq<BlockStep>) -> int {
    if advances(steps) {
        trailing_reverts(steps) as int
    } else {
        start + trailing_reverts(steps)
    }
}

proof fn lemma_advances_push(steps: Seq<BlockStep>)
    requires
        steps.len() > 0,
    ensures
        advances(steps) == (steps.last() is Advance || advances(steps.drop_last())),
{
    let head = steps.drop_last();
    if advances(steps) {
        let i = choose|i: int| 0 <= i < steps.len() && #[trigger] steps[i] is Advance;
        if i < steps.len() - 1 {
            assert(head[i] is Advance);
        }
    }
    if advances(head) {
        let i = choose|i: int| 0 <= i < head.len() && #[trigger] head[i] is Advance;
        assert(steps[i] is Advance);
    }
}

/// The reorganization counters follow the history of the block pointer.
/// After any sequence of advances and reverts, the count of
/// reorganizations has grown by the number of reverts, and the current
/// depth is the number of reverts since the last advance (on top of the
/// depth at the start where the pointer never advanced). A record whose
/// counters start at zero therefore counts exactly the reverts and the
/// trailing reverts.
pub proof fn lemma_counters_follow_history(row: DeploymentView, steps: Seq<BlockStep>)
    ensures
        after_steps(row, steps).reorg_count == row.reorg_count + reverts(steps),
        after_steps(row, steps).current_reorg_depth == depth_after(
            row.current_reorg_depth,
            steps,
        ),
        row.reorg_count == 0 && row.current_reorg_depth == 0 ==> after_steps(
            row,
            steps,
        ).reorg_count == reverts(steps) && after_steps(row, steps).current_reorg_depth
            == trailing_reverts(steps),
    decreases steps.len(),
{
    if steps.len() > 0 {
        lemma_counters_follow_history(row, steps.drop_last());
        lemma_advances_push(steps);
    }
}

/// The largest depth is the largest current depth that was ever seen. For
/// a record with consistent counters, after any sequence of advances and
/// reverts it is no smaller than the current depth after any prefix of the
/// sequence, and it is either the largest depth at the start or the current
/// depth after some prefix.
pub proof fn lemma_max_depth_is_largest_seen(row: DeploymentView, steps: Seq<BlockStep>)
    requires
        row.reorgs_consistent(),
    ensures
        after_steps(row, steps).reorgs_consistent(),
        after_steps(row, steps).max_reorg_depth >= row.max_reorg_depth,
        forall|k: int|
            1 <= k <= steps.len() ==> (#[trigger] after_steps(
                row,
                steps.take(k),
            )).current_reorg_depth <= after_steps(row, steps).max_reorg_depth,
        after_steps(row, steps).max_reorg_depth == row.max_reorg_depth || exists|k: int|
            1 <= k <= steps.len() && (#[trigger] after_steps(
                row,
                steps.take(k),
            )).current_reorg_depth == after_steps(row, steps).max_reorg_depth,
    decreases steps.len(),
{
    if steps.len() > 0 {
        let head = steps.drop_last();
        let n = steps.len() as int;
        lemma_max_depth_is_largest_seen(row, head);
        assert(steps.take(n) =~= steps);
        let before = after_steps(row, head);
        let after = after_steps(row, steps);
        assert forall|k: int| 1 <= k <= steps.len() implies (#[trigger] after_steps(
            row,
            steps.take(k),
        )).current_reorg_depth <= after.max_reorg_depth by {
            if k < n {
                assert(steps.take(k) =~= head.take(k));
            }
        }
        if after.max_reorg_depth != row.max_reorg_depth {
            if after.max_reorg_depth == before.max_reorg_depth {
                let k = choose|k: int|
                    1 <= k <= head.len() && (#[trigger] after_steps(
                        row,
                        head.take(k),
                    )).current_reorg_depth == before.max_reorg_depth;
                assert(steps.take(k) =~= head.take(k));
                assert(after_steps(row, steps.take(k)).current_reorg_depth
                    == after.max_reorg_depth);
            } else {
                assert(after_steps(row, steps.take(n)).current_reorg_depth
                    == after.max_reorg_depth);
            }
        }
    }
}

/// Advancing and reverting keep the counters of a record consistent: where
/// none is negative and the current depth does not exceed the largest
/// depth before, the same holds after.
pub proof fn lemma_reorgs_stay_consistent(row: DeploymentView, step: BlockStep)
    requires
        row.reorgs_consistent(),
    ensures
        after_step(row, step).reorgs_consistent(),
{
}

/// What the library writes keeps the invariants of the data model. The
/// first record of a deployment has a whole graft, or none, and consistent
/// counters; and a record that has both keeps both when its block pointer
/// advances or is reverted, when it is marked as synced, and when its
/// failure is cleared.
pub proof fn lemma_record_invariants_are_kept(
    row: DeploymentView,
    id: Seq<char>,
    entity: DeploymentEntityView,
    ptr: BlockPointerView,
    health: SubgraphHealth,
)
    requires
        row.graft_whole(),
        row.reorgs_consistent(),
    ensures
        initial_record(id, entity).graft_whole() && initial_record(id, entity).reorgs_consistent(),
        advanced(row, ptr).graft_whole() && advanced(row, ptr).reorgs_consistent(),
        reverted(row, ptr).graft_whole() && reverted(row, ptr).reorgs_consistent(),
        unfailed(row, health).graft_whole() && unfailed(row, health).reorgs_consistent(),
        (DeploymentView { synced: true, ..row }).graft_whole() && (DeploymentView {
            synced: true,
            ..row
        }).reorgs_consistent(),
{
}

/// To look up a graft twice, with no write in between, gives the same
/// result twice: the same graft or none, or an error of the same kind.
pub proof fn lemma_graft_lookup_repeats(
    rows: Seq<DeploymentView>,
    id: Seq<char>,
    pending_only: bool,
    first: Result<Option<Graft>, StoreError>,
    second: Result<Option<Graft>, StoreError>,
)
    requires
        graft_yields(first, graft_of(rows, id, pending_only)),
        graft_yields(second, graft_of(rows, id, pending_only)),
    ensures
        match (first, second) {
            (Ok(Some(a)), Ok(Some(b))) => a.0@ == b.0@ && a.1@ == b.1@,
            (Ok(None), Ok(None)) => true,
            (Err(e), Err(f)) => e.spec_kind() == f.spec_kind(),
            _ => false,
        },
{
}

/// A pending graft is passed over once its data was copied: where the
/// latest block of the deployment is at or past the block of the graft, a
/// lookup of the pending graft finds none.
pub proof fn lemma_copied_graft_is_not_pending(rows: Seq<DeploymentView>, id: Seq<char>)
    requires
        first_row(rows, deployment_is(id)) matches Some(row) && graft_copied(row),
    ensures
        graft_of(rows, id, true) == Ok::<Option<crate::deployment::GraftView>, crate::error::ErrorKind>(
            None,
        ),
{
}

/// Once the block pointer of a deployment has advanced to the block of its
/// graft or past it, a lookup of the pending graft finds none.
pub proof fn lemma_graft_not_pending_after_advance(
    rows: Seq<DeploymentView>,
    id: Seq<char>,
    ptr: BlockPointerView,
)
    requires
        first_row(rows, deployment_is(id)) matches Some(row) && row.graft_block_number matches Some(
            number,
        ) && ptr.number >= number,
    ensures
        graft_of(forward(rows, id, ptr), id, true) == Ok::<
            Option<crate::deployment::GraftView>,
            crate::error::ErrorKind,
        >(None),
{
    let p = deployment_is(id);
    let f = |r: DeploymentView| advanced(r, ptr);
    lemma_first_where_update(rows, p, p, f);
    lemma_first_where(rows, p);
    let i = first_where(rows, p)->0;
    assert(graft_copied(forward(rows, id, ptr)[i]));
}

/// To mark a deployment as synced a second time changes nothing, and after
/// the first time a deployment that has a record is synced.
pub proof fn lemma_mark_synced_once(rows: Seq<DeploymentView>, id: Seq<char>)
    ensures
        mark_synced(mark_synced(rows, id), id) == mark_synced(rows, id),
        any_row(rows, deployment_is(id)) ==> is_synced(mark_synced(rows, id), id),
{
    let once = mark_synced(rows, id);
    if any_row(rows, deployment_is(id)) {
        let p = deployment_is(id);
        lemma_first_where(rows, p);
        let i = first_where(rows, p)->0;
        lemma_first_found(once, p, i);
    }
}

} // verus!
