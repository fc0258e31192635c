//! What holds of the switching of subgraph names and of the store as a
//! whole: under which policy a deploy makes a deployment the current one,
//! which assignments a switch announces, when a deploy changes nothing,
//! that a reassignment is always announced, that a deployment lies where the
//! primary has placed it, that a failed creation leaves the primary alone
//! and can be repeated, that a report passes over bad ids, and that the
//! recorder of the bus does not change what is delivered.

use crate::entity::DeploymentEntityView;
use crate::error::ErrorKind;
use crate::event::{BusView, EntityChangeOperation, EntityChangeView};
use crate::primary::{
    assignment_change, assignment_of, awaits, points_to, promoted, subgraph_named, switch_action,
    switched, unused, AssignmentView, PrimaryView, SubgraphVersionSwitchingMode, SubgraphView,
    SwitchAction,
};
use crate::records::{deployment_is, StoreView};
use crate::sharded_store::{primary_shard, shard_named, ShardedStoreView};
use crate::status::{placeable, FilterView, InfoView};
use crate::table::{
    any_row, first_where, lemma_first_found, lemma_first_where, lemma_first_where_update,
    lemma_select_where_none, lemma_select_where_one, lemma_select_where_twice, select_where,
    update_where, upsert,
};
use vstd::prelude::*;

verus! {

/// Once a name is made sure to exist, a subgraph has it, and its current
/// and pending deployments are what they were before.
pub proof fn lemma_with_subgraph(p: PrimaryView, name: Seq<char>)
    ensures
        any_row(p.with_subgraph(name).subgraphs, subgraph_named(name)),
        p.with_subgraph(name).current_of(name) == p.current_of(name),
        p.with_subgraph(name).pending_of(name) == p.pending_of(name),
        p.with_subgraph(name).assignments == p.assignments,
        p.with_subgraph(name).sites == p.sites,
{
    let test = subgraph_named(name);
    lemma_first_where(p.subgraphs, test);
    if !any_row(p.subgraphs, test) {
        let rows = p.with_subgraph(name).subgraphs;
        let fresh = p.subgraphs.len() as int;
        lemma_first_found(rows, test, fresh);
    }
}

/// The subgraph `name` after a deploy that takes `action`: its first record
/// is the old one, switched.
proof fn lemma_switched_subgraph(
    rows: Seq<SubgraphView>,
    name: Seq<char>,
    action: SwitchAction,
    id: Seq<char>,
)
    requires
        any_row(rows, subgraph_named(name)),
    ensures
        ({
            let test = subgraph_named(name);
            let after = crate::table::update_where(
                rows,
                test,
                |s: SubgraphView| switched(s, action, id),
            );
            &&& first_where(after, test) == first_where(rows, test)
            &&& first_where(rows, test) matches Some(i) && after[i] == switched(
                rows[i],
                action,
                id,
            )
        }),
{
    let test = subgraph_named(name);
    let f = |s: SubgraphView| switched(s, action, id);
    lemma_first_where_update(rows, test, test, f);
    lemma_first_where(rows, test);
}

/// Under the policy `Instant`, the deployment that was deployed last is
/// the current one of its name, and the name has no pending deployment,
/// whatever it pointed to before.
pub proof fn lemma_instant_deploy_makes_current(
    p: PrimaryView,
    name: Seq<char>,
    id: Seq<char>,
    node: Seq<char>,
    current_synced: bool,
)
    ensures
        ({
            let after = p.deploy(
                name,
                id,
                node,
                SubgraphVersionSwitchingMode::Instant,
                current_synced,
            ).0;
            &&& after.current_of(name) == Some(id)
            &&& after.pending_of(name) is None
        }),
{
    lemma_with_subgraph(p, name);
    let named = p.with_subgraph(name);
    let action = switch_action(
        SubgraphVersionSwitchingMode::Instant,
        current_synced,
        named.current_of(name),
        named.pending_of(name),
        id,
    );
    if action != SwitchAction::Nothing {
        lemma_switched_subgraph(named.subgraphs, name, action, id);
    }
}

/// Whether the subgraph `name` is the only one that points to the
/// deployment `id`.
pub open spec fn sole_pointer(subgraphs: Seq<SubgraphView>, name: Seq<char>, id: Seq<char>) -> bool {
    forall|i: int|
        0 <= i < subgraphs.len() && points_to(id)(#[trigger] subgraphs[i]) ==> subgraphs[i].name
            == name
}

/// Whether the deployment `id` has exactly one assignment.
pub open spec fn assigned_once(assignments: Seq<AssignmentView>, id: Seq<char>) -> bool {
    exists|k: int|
        0 <= k < assignments.len() && (#[trigger] assignments[k]).id == id && forall|j: int|
            0 <= j < assignments.len() && j != k ==> (#[trigger] assignments[j]).id != id
}

/// Whether every assignment but those of the deployments `a` and `b` is
/// that of a deployment to which a subgraph other than `name` points.
pub open spec fn others_stay_in_use(p: PrimaryView, name: Seq<char>, a: Seq<char>, b: Seq<char>) -> bool {
    forall|i: int|
        0 <= i < p.assignments.len() && (#[trigger] p.assignments[i]).id != a
            && p.assignments[i].id != b ==> exists|j: int|
            0 <= j < p.subgraphs.len() && (#[trigger] p.subgraphs[j]).name != name && points_to(
                p.assignments[i].id,
            )(p.subgraphs[j])
}

/// Under the policy `Instant`, a deploy over another deployment announces
/// exactly two changes: the assignment of the deployment that was current
/// is removed, and the assignment of the new deployment is written. This
/// holds where the name alone points to the deployment that was current,
/// that deployment has one assignment and the new one has none, and every
/// other assignment is in use under other names.
pub proof fn lemma_instant_deploy_replaces_one_assignment(
    p: PrimaryView,
    name: Seq<char>,
    previous: Seq<char>,
    id: Seq<char>,
    node: Seq<char>,
    current_synced: bool,
)
    requires
        previous != id,
        forall|i: int|
            0 <= i < p.subgraphs.len() && (#[trigger] p.subgraphs[i]).name == name
                ==> p.subgraphs[i].current == Some(previous) && p.subgraphs[i].pending is None,
        any_row(p.subgraphs, subgraph_named(name)),
        sole_pointer(p.subgraphs, name, previous),
        assigned_once(p.assignments, previous),
        !any_row(p.assignments, assignment_of(id)),
        others_stay_in_use(p, name, previous, id),
    ensures
        p.deploy(name, id, node, SubgraphVersionSwitchingMode::Instant, current_synced).1 == seq![
            assignment_change(previous, EntityChangeOperation::Removed),
            assignment_change(id, EntityChangeOperation::Written),
        ],
{
    let test = subgraph_named(name);
    lemma_first_where(p.subgraphs, test);
    let action = SwitchAction::ReplaceCurrent;
    let rows = update_where(p.subgraphs, test, |s: SubgraphView| switched(s, action, id));
    let assignments = p.assignments.push(AssignmentView { id, node_id: node });
    let k = choose|k: int|
        0 <= k < p.assignments.len() && (#[trigger] p.assignments[k]).id == previous && forall|
            j: int,
        |
            0 <= j < p.assignments.len() && j != k ==> (#[trigger] p.assignments[j]).id
                != previous;
    let stale = unused(rows);
    lemma_replaced_pointers(p, name, previous, id, rows);
    assert(stale(assignments[k]));
    assert forall|j: int| 0 <= j < assignments.len() && j != k implies !stale(
        #[trigger] assignments[j],
    ) by {
        if j < p.assignments.len() {
            assert(assignments[j] == p.assignments[j]);
        }
    }
    lemma_select_where_one(assignments, stale, k);
    assert(seq![assignments[k]].map_values(
        |a: AssignmentView| assignment_change(a.id, EntityChangeOperation::Removed),
    ) =~= seq![assignment_change(previous, EntityChangeOperation::Removed)]);
    assert(seq![assignment_change(previous, EntityChangeOperation::Removed)] + seq![
        assignment_change(id, EntityChangeOperation::Written),
    ] =~= seq![
        assignment_change(previous, EntityChangeOperation::Removed),
        assignment_change(id, EntityChangeOperation::Written),
    ]);
}

/// After the name `name` moved from `previous` to `id`, no subgraph points
/// to `previous`, the name points to `id`, and every deployment that is in
/// use under another name still is.
proof fn lemma_replaced_pointers(
    p: PrimaryView,
    name: Seq<char>,
    previous: Seq<char>,
    id: Seq<char>,
    rows: Seq<SubgraphView>,
)
    requires
        previous != id,
        forall|i: int|
            0 <= i < p.subgraphs.len() && (#[trigger] p.subgraphs[i]).name == name
                ==> p.subgraphs[i].current == Some(previous) && p.subgraphs[i].pending is None,
        any_row(p.subgraphs, subgraph_named(name)),
        sole_pointer(p.subgraphs, name, previous),
        others_stay_in_use(p, name, previous, id),
        rows == update_where(
            p.subgraphs,
            subgraph_named(name),
            |s: SubgraphView| switched(s, SwitchAction::ReplaceCurrent, id),
        ),
    ensures
        !any_row(rows, points_to(previous)),
        any_row(rows, points_to(id)),
        forall|i: int|
            0 <= i < p.assignments.len() && (#[trigger] p.assignments[i]).id != previous
                && p.assignments[i].id != id ==> any_row(rows, points_to(p.assignments[i].id)),
{
    let test = subgraph_named(name);
    let w = choose|w: int| 0 <= w < p.subgraphs.len() && test(#[trigger] p.subgraphs[w]);
    assert(points_to(id)(rows[w]));
    assert forall|j: int| 0 <= j < rows.len() implies !points_to(previous)(#[trigger] rows[j]) by {
        if points_to(previous)(p.subgraphs[j]) {
            assert(p.subgraphs[j].name == name);
        }
    }
    assert forall|i: int|
        0 <= i < p.assignments.len() && (#[trigger] p.assignments[i]).id != previous
            && p.assignments[i].id != id implies any_row(
        rows,
        points_to(p.assignments[i].id),
    ) by {
        let j = choose|j: int|
            0 <= j < p.subgraphs.len() && (#[trigger] p.subgraphs[j]).name != name && points_to(
                p.assignments[i].id,
            )(p.subgraphs[j]);
        assert(rows[j] == p.subgraphs[j]);
        assert(points_to(p.assignments[i].id)(rows[j]));
    }
}

/// Under the policy `Synced`, a deployment that becomes pending displaces
/// nothing: where every assignment was in use before, none is removed, and
/// the only change is the assignment of the new deployment, if it had
/// none.
pub proof fn lemma_pending_deploy_removes_nothing(
    p: PrimaryView,
    name: Seq<char>,
    id: Seq<char>,
    node: Seq<char>,
)
    requires
        p.current_of(name) is Some,
        p.current_of(name) != Some(id),
        forall|i: int|
            0 <= i < p.subgraphs.len() && (#[trigger] p.subgraphs[i]).name == name
                ==> p.subgraphs[i].pending is None,
        forall|i: int|
            0 <= i < p.assignments.len() ==> any_row(
                p.subgraphs,
                points_to((#[trigger] p.assignments[i]).id),
            ),
    ensures
        ({
            let (after, changes) = p.deploy(
                name,
                id,
                node,
                SubgraphVersionSwitchingMode::Synced,
                true,
            );
            &&& after.assignments == p.with_assignment(id, node).assignments
            &&& changes == if any_row(p.assignments, assignment_of(id)) {
                Seq::<EntityChangeView>::empty()
            } else {
                seq![assignment_change(id, EntityChangeOperation::Written)]
            }
        }),
{
    let test = subgraph_named(name);
    lemma_first_where(p.subgraphs, test);
    let w = first_where(p.subgraphs, test)->0;
    let action = SwitchAction::MakePending;
    let rows = update_where(p.subgraphs, test, |s: SubgraphView| switched(s, action, id));
    let assignments = p.with_assignment(id, node).assignments;
    let stale = unused(rows);
    assert forall|i: int| 0 <= i < assignments.len() implies !stale(#[trigger] assignments[i]) by {
        if i < p.assignments.len() {
            let a = p.assignments[i];
            let j = choose|j: int| 0 <= j < p.subgraphs.len() && points_to(a.id)(
                #[trigger] p.subgraphs[j],
            );
            assert(points_to(a.id)(rows[j]));
        } else {
            assert(points_to(id)(rows[w]));
        }
    }
    lemma_select_where_none(assignments, stale);
    crate::table::lemma_delete_where_none(assignments, stale);
    assert(Seq::<AssignmentView>::empty().map_values(
        |a: AssignmentView| assignment_change(a.id, EntityChangeOperation::Removed),
    ) =~= Seq::<EntityChangeView>::empty());
    assert(Seq::<EntityChangeView>::empty() + seq![
        assignment_change(id, EntityChangeOperation::Written),
    ] =~= seq![assignment_change(id, EntityChangeOperation::Written)]);
    assert(Seq::<EntityChangeView>::empty() + Seq::<EntityChangeView>::empty()
        =~= Seq::<EntityChangeView>::empty());
}

/// A promotion announces exactly two changes: the assignment of the
/// deployment that was current is removed, and the assignment of the
/// promoted deployment is written. This holds where the name alone points
/// to the deployment that was current and alone awaits the one that is
/// promoted, the former has one assignment, and every other assignment is
/// in use under other names.
pub proof fn lemma_promotion_replaces_one_assignment(
    p: PrimaryView,
    name: Seq<char>,
    previous: Seq<char>,
    id: Seq<char>,
)
    requires
        previous != id,
        any_row(p.subgraphs, subgraph_named(name)),
        forall|i: int|
            0 <= i < p.subgraphs.len() && (#[trigger] p.subgraphs[i]).name == name
                ==> p.subgraphs[i].current == Some(previous) && p.subgraphs[i].pending == Some(id),
        forall|i: int|
            0 <= i < p.subgraphs.len() && awaits(id)(#[trigger] p.subgraphs[i])
                ==> p.subgraphs[i].name == name,
        sole_pointer(p.subgraphs, name, previous),
        assigned_once(p.assignments, previous),
        others_stay_in_use(p, name, previous, id),
    ensures
        p.promote(id).1 == seq![
            assignment_change(previous, EntityChangeOperation::Removed),
            assignment_change(id, EntityChangeOperation::Written),
        ],
        p.promote(id).0.current_of(name) == Some(id),
        p.promote(id).0.pending_of(name) is None,
{
    lemma_promotion(p, id, name);
    let test = subgraph_named(name);
    lemma_first_where(p.subgraphs, test);
    let w = first_where(p.subgraphs, test)->0;
    assert(awaits(id)(p.subgraphs[w]));
    let rows = update_where(p.subgraphs, awaits(id), |s: SubgraphView| promoted(s));
    let k = choose|k: int|
        0 <= k < p.assignments.len() && (#[trigger] p.assignments[k]).id == previous && forall|
            j: int,
        |
            0 <= j < p.assignments.len() && j != k ==> (#[trigger] p.assignments[j]).id
                != previous;
    let stale = unused(rows);
    assert forall|j: int| 0 <= j < rows.len() implies !points_to(previous)(#[trigger] rows[j]) by {
        if points_to(previous)(p.subgraphs[j]) {
            assert(p.subgraphs[j].name == name);
        }
    }
    assert(stale(p.assignments[k]));
    assert forall|i: int| 0 <= i < p.assignments.len() && i != k implies !stale(
        #[trigger] p.assignments[i],
    ) by {
        let a = p.assignments[i];
        if a.id == id {
            assert(points_to(id)(rows[w]));
        } else {
            let j = choose|j: int|
                0 <= j < p.subgraphs.len() && (#[trigger] p.subgraphs[j]).name != name
                    && points_to(a.id)(p.subgraphs[j]);
            assert(rows[j] == p.subgraphs[j]);
            assert(points_to(a.id)(rows[j]));
        }
    }
    lemma_select_where_one(p.assignments, stale, k);
    assert(seq![p.assignments[k]].map_values(
        |a: AssignmentView| assignment_change(a.id, EntityChangeOperation::Removed),
    ) =~= seq![assignment_change(previous, EntityChangeOperation::Removed)]);
}

/// Under the policy `Synced`, a deployment that is deployed while the
/// current deployment of its name is synced becomes the pending one and
/// leaves the current one in place; one that is deployed while the name has
/// no current deployment, or one that is not synced, becomes the current
/// one. This holds of every deployment that is neither the current nor the
/// pending one of the name.
pub proof fn lemma_synced_deploy_switches(
    p: PrimaryView,
    name: Seq<char>,
    id: Seq<char>,
    node: Seq<char>,
    current_synced: bool,
)
    requires
        p.current_of(name) != Some(id),
        p.pending_of(name) != Some(id),
    ensures
        ({
            let after = p.deploy(
                name,
                id,
                node,
                SubgraphVersionSwitchingMode::Synced,
                current_synced,
            ).0;
            if p.current_of(name) is Some && current_synced {
                after.current_of(name) == p.current_of(name) && after.pending_of(name) == Some(id)
            } else {
                after.current_of(name) == Some(id) && after.pending_of(name) is None
            }
        }),
{
    lemma_with_subgraph(p, name);
    let named = p.with_subgraph(name);
    let action = switch_action(
        SubgraphVersionSwitchingMode::Synced,
        current_synced,
        named.current_of(name),
        named.pending_of(name),
        id,
    );
    lemma_switched_subgraph(named.subgraphs, name, action, id);
}

/// Under the policy `Synced`, to deploy again the deployment that is
/// pending for a name, or the one that is current while none is pending,
/// changes nothing and yields no change. (The current deployment deployed
/// again while another one is pending is the one case that this leaves
/// out: it takes the place of the pending one.)
pub proof fn lemma_redeploy_changes_nothing(
    p: PrimaryView,
    name: Seq<char>,
    id: Seq<char>,
    node: Seq<char>,
    current_synced: bool,
)
    requires
        p.pending_of(name) == Some(id) || (p.current_of(name) == Some(id) && p.pending_of(name)
            is None),
    ensures
        p.deploy(name, id, node, SubgraphVersionSwitchingMode::Synced, current_synced) == (
            p,
            Seq::<EntityChangeView>::empty(),
        ),
{
    lemma_first_where(p.subgraphs, subgraph_named(name));
}

/// Through the store, too, such a deploy changes no stored state: where the
/// shard of the deployment has a record of it and is not asked to replace
/// it, and the shard of the current deployment of the name can be asked,
/// the deploy succeeds, leaves the primary and every shard as they are, and
/// publishes one empty event.
pub proof fn lemma_redeploy_through_store_changes_nothing(
    s: ShardedStoreView,
    name: Seq<char>,
    shard: Seq<char>,
    id: Seq<char>,
    entity: DeploymentEntityView,
    node: Seq<char>,
)
    requires
        s.primary.pending_of(name) == Some(id) || (s.primary.current_of(name) == Some(id)
            && s.primary.pending_of(name) is None),
        s.store_index(id) matches Ok(k) && any_row(
            s.shards[k].store.deployments,
            deployment_is(id),
        ),
        s.current_synced(s.primary.current_of(name)) is Ok,
        s.shard_index(shard) is Some,
    ensures
        s.create_deployment(
            name,
            shard,
            id,
            entity,
            node,
            SubgraphVersionSwitchingMode::Synced,
            false,
        ) == (Ok::<(), ErrorKind>(()), s.published(Seq::empty())),
{
    let k = s.store_index(id)->Ok_0;
    let target = s.target_shard(id, shard);
    lemma_first_where(s.shards, shard_named(target));
    let store = s.shards[k].store;
    assert(s.with_store(k, store).shards =~= s.shards);
    let synced = s.current_synced(s.primary.current_of(name))->Ok_0;
    lemma_first_where(s.primary.sites, crate::primary::site_of(id));
    lemma_redeploy_changes_nothing(s.primary, name, id, node, synced);
    assert(Seq::<EntityChangeView>::empty() + Seq::<EntityChangeView>::empty()
        =~= Seq::<EntityChangeView>::empty());
}

/// The current deployment of a name deployed again while another one is
/// pending takes the place of the pending one, and stays the current one.
pub proof fn lemma_redeploy_current_displaces_pending(
    p: PrimaryView,
    name: Seq<char>,
    id: Seq<char>,
    node: Seq<char>,
    current_synced: bool,
)
    requires
        p.current_of(name) == Some(id),
        p.pending_of(name) is Some,
        p.pending_of(name) != Some(id),
    ensures
        ({
            let after = p.deploy(
                name,
                id,
                node,
                SubgraphVersionSwitchingMode::Synced,
                current_synced,
            ).0;
            after.current_of(name) == Some(id) && after.pending_of(name) == Some(id)
        }),
{
    lemma_with_subgraph(p, name);
    let named = p.with_subgraph(name);
    lemma_switched_subgraph(named.subgraphs, name, SwitchAction::MakePending, id);
}

/// A deployment that finished syncing is the current one of every name for
/// which it was pending, and such a name has no pending deployment left. A
/// name for which it was not pending keeps what it points to.
pub proof fn lemma_promotion(p: PrimaryView, id: Seq<char>, name: Seq<char>)
    ensures
        ({
            let after = p.promote(id).0;
            if p.pending_of(name) == Some(id) {
                after.current_of(name) == Some(id) && after.pending_of(name) is None
            } else {
                after.current_of(name) == p.current_of(name) && after.pending_of(name)
                    == p.pending_of(name)
            }
        }),
{
    let test = subgraph_named(name);
    let awaited = crate::primary::awaits(id);
    let f = |s: SubgraphView| crate::primary::promoted(s);
    lemma_first_where(p.subgraphs, test);
    if any_row(p.subgraphs, awaited) {
        lemma_first_where_update(p.subgraphs, test, awaited, f);
    }
}

/// To assign a deployment to the node that it is assigned to already
/// changes nothing, and the change is announced all the same.
pub proof fn lemma_reassign_to_same_node(p: PrimaryView, id: Seq<char>, node: Seq<char>)
    requires
        any_row(p.assignments, assignment_of(id)),
        forall|i: int|
            0 <= i < p.assignments.len() && (#[trigger] p.assignments[i]).id == id
                ==> p.assignments[i].node_id == node,
    ensures
        p.reassign(id, node) == Ok::<(PrimaryView, Seq<EntityChangeView>), ErrorKind>(
            (p, seq![assignment_change(id, EntityChangeOperation::Written)]),
        ),
{
    let after = crate::table::update_where(
        p.assignments,
        assignment_of(id),
        |a: AssignmentView| AssignmentView { node_id: node, ..a },
    );
    assert(after =~= p.assignments);
}

/// A reassignment of a deployment that has an assignment publishes exactly
/// one event, which holds exactly the change of that assignment, whatever
/// node the deployment was assigned to before.
pub proof fn lemma_reassign_is_announced(s: ShardedStoreView, id: Seq<char>, node: Seq<char>)
    requires
        any_row(s.primary.assignments, assignment_of(id)),
    ensures
        s.reassign(id, node).0 is Ok,
        s.reassign(id, node).1.bus.channel == s.bus.channel.push(
            seq![assignment_change(id, EntityChangeOperation::Written)],
        ),
{
}

/// Through the store, too, the deployment that was deployed last under
/// the policy `Instant` is the current one of its name, and the name has
/// no pending deployment, whatever it pointed to before.
pub proof fn lemma_instant_create_makes_current(
    s: ShardedStoreView,
    name: Seq<char>,
    shard: Seq<char>,
    id: Seq<char>,
    entity: DeploymentEntityView,
    node: Seq<char>,
    replace: bool,
)
    requires
        s.create_deployment(
            name,
            shard,
            id,
            entity,
            node,
            SubgraphVersionSwitchingMode::Instant,
            replace,
        ).0 is Ok,
    ensures
        ({
            let after = s.create_deployment(
                name,
                shard,
                id,
                entity,
                node,
                SubgraphVersionSwitchingMode::Instant,
                replace,
            ).1;
            &&& after.primary.current_of(name) == Some(id)
            &&& after.primary.pending_of(name) is None
        }),
{
    let target = s.target_shard(id, shard);
    let k = s.shard_index(target)->0;
    let in_shard = s.with_store(k, s.shards[k].store.create(id, entity, replace).0);
    let synced = in_shard.current_synced(s.primary.current_of(name))->Ok_0;
    lemma_instant_deploy_makes_current(s.primary.with_site(id, target), name, id, node, synced);
}

/// Through the store, a deploy under the policy `Instant` over another
/// deployment publishes one event: the changes of the shard, then the
/// removal of the assignment of the deployment that was current, then the
/// writing of the assignment of the new one. This holds under the
/// conditions of `lemma_instant_deploy_replaces_one_assignment`.
pub proof fn lemma_instant_create_replaces_one_assignment(
    s: ShardedStoreView,
    name: Seq<char>,
    shard: Seq<char>,
    previous: Seq<char>,
    id: Seq<char>,
    entity: DeploymentEntityView,
    node: Seq<char>,
    replace: bool,
)
    requires
        s.create_deployment(
            name,
            shard,
            id,
            entity,
            node,
            SubgraphVersionSwitchingMode::Instant,
            replace,
        ).0 is Ok,
        previous != id,
        forall|i: int|
            0 <= i < s.primary.subgraphs.len() && (#[trigger] s.primary.subgraphs[i]).name == name
                ==> s.primary.subgraphs[i].current == Some(previous)
                && s.primary.subgraphs[i].pending is None,
        any_row(s.primary.subgraphs, subgraph_named(name)),
        sole_pointer(s.primary.subgraphs, name, previous),
        assigned_once(s.primary.assignments, previous),
        !any_row(s.primary.assignments, assignment_of(id)),
        others_stay_in_use(s.primary, name, previous, id),
    ensures
        ({
            let target = s.target_shard(id, shard);
            let k = s.shard_index(target)->0;
            let after = s.create_deployment(
                name,
                shard,
                id,
                entity,
                node,
                SubgraphVersionSwitchingMode::Instant,
                replace,
            ).1;
            after.bus.channel == s.bus.channel.push(
                s.shards[k].store.create(id, entity, replace).1 + seq![
                    assignment_change(previous, EntityChangeOperation::Removed),
                    assignment_change(id, EntityChangeOperation::Written),
                ],
            )
        }),
{
    let target = s.target_shard(id, shard);
    let k = s.shard_index(target)->0;
    let in_shard = s.with_store(k, s.shards[k].store.create(id, entity, replace).0);
    let synced = in_shard.current_synced(s.primary.current_of(name))->Ok_0;
    let placed = s.primary.with_site(id, target);
    assert(placed.subgraphs == s.primary.subgraphs);
    assert(placed.assignments == s.primary.assignments);
    lemma_instant_deploy_replaces_one_assignment(placed, name, previous, id, node, synced);
}

/// Through the store, to mark a pending deployment as synced succeeds,
/// makes it the current one of its name with none pending, marks its
/// record, and publishes one event with exactly two changes: the removal
/// of the assignment of the deployment that was current and the writing of
/// the assignment of the promoted one. This holds where the shard of the
/// deployment is found, under the conditions of
/// `lemma_promotion_replaces_one_assignment`.
pub proof fn lemma_synced_promotes_through_store(
    s: ShardedStoreView,
    name: Seq<char>,
    previous: Seq<char>,
    id: Seq<char>,
)
    requires
        s.store_index(id) is Ok,
        previous != id,
        any_row(s.primary.subgraphs, subgraph_named(name)),
        forall|i: int|
            0 <= i < s.primary.subgraphs.len() && (#[trigger] s.primary.subgraphs[i]).name == name
                ==> s.primary.subgraphs[i].current == Some(previous)
                && s.primary.subgraphs[i].pending == Some(id),
        forall|i: int|
            0 <= i < s.primary.subgraphs.len() && awaits(id)(#[trigger] s.primary.subgraphs[i])
                ==> s.primary.subgraphs[i].name == name,
        sole_pointer(s.primary.subgraphs, name, previous),
        assigned_once(s.primary.assignments, previous),
        others_stay_in_use(s.primary, name, previous, id),
    ensures
        ({
            let k = s.store_index(id)->Ok_0;
            let (outcome, after) = s.mark_synced(id);
            &&& outcome is Ok
            &&& after.primary.current_of(name) == Some(id)
            &&& after.primary.pending_of(name) is None
            &&& after.bus.channel == s.bus.channel.push(
                seq![
                    assignment_change(previous, EntityChangeOperation::Removed),
                    assignment_change(id, EntityChangeOperation::Written),
                ],
            )
            &&& any_row(s.shards[k].store.deployments, deployment_is(id))
                ==> crate::deployment::is_synced(after.shards[k].store.deployments, id)
        }),
{
    let k = s.store_index(id)->Ok_0;
    lemma_promotion_replaces_one_assignment(s.primary, name, previous, id);
    crate::laws::lemma_mark_synced_once(s.shards[k].store.deployments, id);
    lemma_first_where(s.shards, shard_named(s.primary.site(id)->0.shard));
}

/// To mark as synced a deployment that is pending for no name, such as one
/// that is current already, succeeds, leaves the primary as it is, marks
/// the record of the deployment and publishes one event without changes;
/// and to do so a second time changes nothing more and publishes one more
/// event without changes.
pub proof fn lemma_synced_again_changes_nothing(s: ShardedStoreView, id: Seq<char>)
    requires
        s.store_index(id) is Ok,
        !any_row(s.primary.subgraphs, awaits(id)),
    ensures
        ({
            let k = s.store_index(id)->Ok_0;
            let (first, once) = s.mark_synced(id);
            let (second, twice) = once.mark_synced(id);
            &&& first is Ok && second is Ok
            &&& once.primary == s.primary && twice.primary == s.primary
            &&& once.shards == s.with_deployments(
                k,
                crate::deployment::mark_synced(s.shards[k].store.deployments, id),
            ).shards
            &&& twice.shards == once.shards
            &&& any_row(s.shards[k].store.deployments, deployment_is(id))
                ==> crate::deployment::is_synced(once.shards[k].store.deployments, id)
            &&& once.bus.channel == s.bus.channel.push(Seq::empty())
            &&& twice.bus.channel == s.bus.channel.push(Seq::empty()).push(Seq::empty())
        }),
{
    let k = s.store_index(id)->Ok_0;
    let rows = s.shards[k].store.deployments;
    let (first, once) = s.mark_synced(id);
    let site = s.primary.site(id)->0;
    let test = shard_named(site.shard);
    lemma_first_where(s.shards, test);
    crate::laws::lemma_mark_synced_once(rows, id);
    // the shards keep their names, so that the shard is found again
    assert forall|j: int| 0 <= j < k implies !test(#[trigger] once.shards[j]) by {
        assert(!test(s.shards[j]));
    }
    lemma_first_found(once.shards, test, k);
    assert(once.store_index(id) == Ok::<int, ErrorKind>(k));
    let (second, twice) = once.mark_synced(id);
    assert(twice.shards =~= once.shards);
}

/// A valid store has exactly one primary shard.
pub proof fn lemma_one_primary_shard(s: ShardedStoreView)
    requires
        s.valid(),
    ensures
        s.shard_index(primary_shard()) matches Some(k) && s.shards[k].name == primary_shard()
            && forall|j: int|
            0 <= j < s.shards.len() && j != k ==> (#[trigger] s.shards[j]).name != primary_shard(),
{
    lemma_first_where(s.shards, shard_named(primary_shard()));
}

/// A report does not fail for a bad id: deployments with a malformed id,
/// and deployments that the primary has not placed, may be left out of the
/// request without any change to the report.
pub proof fn lemma_status_passes_over_bad_ids(s: ShardedStoreView, ids: Seq<Seq<char>>)
    ensures
        s.status(FilterView::Deployments(ids)) == s.status(
            FilterView::Deployments(select_where(ids, placeable(s.primary))),
        ),
        (forall|i: int| 0 <= i < ids.len() ==> !placeable(s.primary)(#[trigger] ids[i]))
            ==> s.status(FilterView::Deployments(ids)) == Ok::<Seq<InfoView>, ErrorKind>(
            Seq::empty(),
        ),
{
    lemma_select_where_twice(ids, placeable(s.primary));
    if forall|i: int| 0 <= i < ids.len() ==> !placeable(s.primary)(#[trigger] ids[i]) {
        lemma_select_where_none(ids, placeable(s.primary));
    }
}

/// A creation in a shard that the store does not have fails as an unknown
/// shard that names that shard, and changes nothing, whatever the primary
/// has recorded about the deployment.
pub proof fn lemma_unknown_shard_is_refused(
    s: ShardedStoreView,
    name: Seq<char>,
    shard: Seq<char>,
    id: Seq<char>,
    entity: DeploymentEntityView,
    node: Seq<char>,
    mode: SubgraphVersionSwitchingMode,
    replace: bool,
)
    requires
        s.shard_index(shard) is None,
    ensures
        s.create_deployment(name, shard, id, entity, node, mode, replace) == (
            Err::<(), ErrorKind>(ErrorKind::UnknownShard),
            s,
        ),
        s.create_message(name, shard, id) == shard,
{
}

/// A creation that fails leaves the primary and the bus alone: no name is
/// switched, no placement is recorded and nothing is published, whatever
/// the shard has written by then.
pub proof fn lemma_failed_create_leaves_primary(
    s: ShardedStoreView,
    name: Seq<char>,
    shard: Seq<char>,
    id: Seq<char>,
    entity: DeploymentEntityView,
    node: Seq<char>,
    mode: SubgraphVersionSwitchingMode,
    replace: bool,
)
    requires
        s.create_deployment(name, shard, id, entity, node, mode, replace).0 is Err,
    ensures
        s.create_deployment(name, shard, id, entity, node, mode, replace).1.primary == s.primary,
        s.create_deployment(name, shard, id, entity, node, mode, replace).1.bus == s.bus,
        s.shard_index(shard) is None || s.shard_index(s.target_shard(id, shard)) is None
            ==> s.create_deployment(
            name,
            shard,
            id,
            entity,
            node,
            mode,
            replace,
        ).1 == s,
{
}

/// A deployment that the store has deployed lies in the shard in which the
/// primary has placed it: the shard is found, and it has a record of the
/// deployment.
pub proof fn lemma_deployed_lies_in_its_shard(
    s: ShardedStoreView,
    name: Seq<char>,
    shard: Seq<char>,
    id: Seq<char>,
    entity: DeploymentEntityView,
    node: Seq<char>,
    mode: SubgraphVersionSwitchingMode,
    replace: bool,
)
    requires
        s.create_deployment(name, shard, id, entity, node, mode, replace).0 is Ok,
    ensures
        ({
            let after = s.create_deployment(name, shard, id, entity, node, mode, replace).1;
            &&& after.shard_of(id) == Ok::<Seq<char>, ErrorKind>(s.target_shard(id, shard))
            &&& after.store_index(id) matches Ok(k) && any_row(
                after.shards[k].store.deployments,
                deployment_is(id),
            )
        }),
{
    let target = s.target_shard(id, shard);
    let after = s.create_deployment(name, shard, id, entity, node, mode, replace).1;
    let k = s.shard_index(target)->0;
    let test = shard_named(target);
    lemma_first_where(s.shards, test);
    lemma_create_again_writes_nothing(s.shards[k].store, id, entity, replace, entity);
    // the shards keep their names, so that the target shard is found again
    lemma_first_found(after.shards, test, k);
    // the primary has the placement
    let placed = s.primary.with_site(id, target);
    lemma_site_recorded(s.primary, id, target);
    let synced = s.with_store(k, s.shards[k].store.create(id, entity, replace).0).current_synced(
        s.primary.current_of(name),
    )->Ok_0;
    lemma_deploy_keeps_sites(placed, name, id, node, mode, synced);
}

/// Once a placement of a deployment is made sure to exist, the primary has
/// one: the one it had, or else the new one.
pub proof fn lemma_site_recorded(p: PrimaryView, id: Seq<char>, shard: Seq<char>)
    ensures
        p.with_site(id, shard).site(id) is Some,
        p.with_site(id, shard).site(id)->0.shard == match p.site(id) {
            Some(site) => site.shard,
            None => shard,
        },
{
    let test = crate::primary::site_of(id);
    lemma_first_where(p.sites, test);
    if !any_row(p.sites, test) {
        let rows = p.with_site(id, shard).sites;
        let fresh = p.sites.len() as int;
        lemma_first_found(rows, test, fresh);
    }
}

/// A deploy leaves the placements alone.
pub proof fn lemma_deploy_keeps_sites(
    p: PrimaryView,
    name: Seq<char>,
    id: Seq<char>,
    node: Seq<char>,
    mode: SubgraphVersionSwitchingMode,
    current_synced: bool,
)
    ensures
        p.deploy(name, id, node, mode, current_synced).0.sites == p.sites,
{
}

/// A shard that has created a deployment has a record of it, so that to
/// create the deployment again, without asking to replace it, writes
/// nothing and changes nothing. A creation that failed after the shard
/// wrote can therefore be repeated.
pub proof fn lemma_create_again_writes_nothing(
    store: StoreView,
    id: Seq<char>,
    entity: DeploymentEntityView,
    replace: bool,
    again: DeploymentEntityView,
)
    ensures
        any_row(store.create(id, entity, replace).0.deployments, deployment_is(id)),
        store.create(id, entity, replace).0.create(id, again, false) == (
            store.create(id, entity, replace).0,
            Seq::<EntityChangeView>::empty(),
        ),
{
    let test = deployment_is(id);
    let exists = any_row(store.deployments, test);
    lemma_first_where(store.deployments, test);
    if replace || !exists {
        let record = crate::entity::initial_record(id, entity);
        let rows = upsert(store.deployments, test, record);
        match first_where(store.deployments, test) {
            Some(i) => {
                assert(test(rows[i]));
            },
            None => {
                assert(test(rows[store.deployments.len() as int]));
            },
        }
    }
}

/// The recorder of a bus does not change what is delivered: two buses with
/// the same channel have the same channel after the same event was
/// published, whatever their recorders do.
pub proof fn lemma_tap_leaves_delivery_alone(a: BusView, b: BusView, event: Seq<EntityChangeView>)
    requires
        a.channel == b.channel,
    ensures
        a.published(event).channel == b.published(event).channel,
        a.published(event).channel == a.channel.push(event),
{
}

} // verus!
