//! The metadata that only the primary shard keeps: which deployments a
//! subgraph name points to, which node indexes a deployment, and in which
//! shard the data of a deployment lies. The rules by which a name switches
//! from one deployment to the next are here.

use crate::error::{ErrorKind, StoreError};
use crate::event::{changes_view, EntityChange, EntityChangeOperation, EntityChangeView};
use crate::ids::{NodeId, SubgraphDeploymentId, SubgraphName};
use crate::metadata::MetadataType;
use crate::table::{
    any_row, delete_where, first_row, is_first, lemma_delete_where_push, lemma_empty_table,
    lemma_first_absent, lemma_first_found, lemma_select_where_push, select_where, update_where,
};
use vstd::prelude::*;

verus! {

/// When a newly deployed version of a subgraph becomes the current one.
#[derive(Debug, Clone, Copy, PartialEq, Eq, Hash, Structural)]
pub enum SubgraphVersionSwitchingMode {
    /// At once.
    Instant,
    /// Once it is synced, where the current version is synced.
    Synced,
}

/// The value of an optional deployment id.
pub open spec fn deployment_text(o: Option<SubgraphDeploymentId>) -> Option<Seq<char>> {
    match o {
        Some(id) => Some(id@),
        None => None,
    }
}

/// A subgraph name with the deployments it points to.
#[derive(Debug, PartialEq, Eq)]
pub struct SubgraphRecord {
    pub name: SubgraphName,
    /// The deployment that answers queries for the name.
    pub current: Option<SubgraphDeploymentId>,
    /// The deployment that takes over once it is synced.
    pub pending: Option<SubgraphDeploymentId>,
}

/// The mathematical value of a subgraph record.
pub struct SubgraphView {
    pub name: Seq<char>,
    pub current: Option<Seq<char>>,
    pub pending: Option<Seq<char>>,
}

impl View for SubgraphRecord {
    type V = SubgraphView;

    open spec fn view(&self) -> SubgraphView {
        SubgraphView {
            name: self.name@,
            current: deployment_text(self.current),
            pending: deployment_text(self.pending),
        }
    }
}

/// The assignment of a deployment to the node that indexes it.
#[derive(Debug, PartialEq, Eq)]
pub struct AssignmentRecord {
    pub id: SubgraphDeploymentId,
    pub node_id: NodeId,
}

/// The mathematical value of an assignment.
pub struct AssignmentView {
    pub id: Seq<char>,
    pub node_id: Seq<char>,
}

impl View for AssignmentRecord {
    type V = AssignmentView;

    open spec fn view(&self) -> AssignmentView {
        AssignmentView { id: self.id@, node_id: self.node_id@ }
    }
}

impl Clone for AssignmentRecord {
    fn clone(&self) -> (r: Self)
        ensures
            r@ == self@,
    {
        AssignmentRecord { id: self.id.clone(), node_id: self.node_id.clone() }
    }
}

/// The placement of a deployment: the shard that holds its data.
#[derive(Debug, PartialEq, Eq)]
pub struct SiteRecord {
    pub deployment: SubgraphDeploymentId,
    pub shard: String,
}

/// The mathematical value of a placement.
pub struct SiteView {
    pub deployment: Seq<char>,
    pub shard: Seq<char>,
}

impl View for SiteRecord {
    type V = SiteView;

    open spec fn view(&self) -> SiteView {
        SiteView { deployment: self.deployment@, shard: self.shard@ }
    }
}

/// The tables of the primary shard that no other shard has.
#[derive(Debug, PartialEq, Eq)]
pub struct Primary {
    pub subgraphs: Vec<SubgraphRecord>,
    pub assignments: Vec<AssignmentRecord>,
    pub sites: Vec<SiteRecord>,
}

/// The mathematical value of the primary's own tables.
pub struct PrimaryView {
    pub subgraphs: Seq<SubgraphView>,
    pub assignments: Seq<AssignmentView>,
    pub sites: Seq<SiteView>,
}

/// The values of a list of subgraph records, in order.
pub open spec fn subgraphs_view(rows: Seq<SubgraphRecord>) -> Seq<SubgraphView> {
    rows.map_values(|r: SubgraphRecord| r@)
}

/// The values of a list of assignments, in order.
pub open spec fn assignments_view(rows: Seq<AssignmentRecord>) -> Seq<AssignmentView> {
    rows.map_values(|r: AssignmentRecord| r@)
}

/// The values of a list of placements, in order.
pub open spec fn sites_view(rows: Seq<SiteRecord>) -> Seq<SiteView> {
    rows.map_values(|r: SiteRecord| r@)
}

impl View for Primary {
    type V = PrimaryView;

    open spec fn view(&self) -> PrimaryView {
        PrimaryView {
            subgraphs: subgraphs_view(self.subgraphs@),
            assignments: assignments_view(self.assignments@),
            sites: sites_view(self.sites@),
        }
    }
}

/// The test that a subgraph record has the name `name`.
pub open spec fn subgraph_named(name: Seq<char>) -> spec_fn(SubgraphView) -> bool {
    |s: SubgraphView| s.name == name
}

/// The test that an assignment is that of the deployment `id`.
pub open spec fn assignment_of(id: Seq<char>) -> spec_fn(AssignmentView) -> bool {
    |a: AssignmentView| a.id == id
}

/// The test that a placement is that of the deployment `id`.
pub open spec fn site_of(id: Seq<char>) -> spec_fn(SiteView) -> bool {
    |s: SiteView| s.deployment == id
}

/// The test that a subgraph points to the deployment `id`, as its current
/// or as its pending deployment.
pub open spec fn points_to(id: Seq<char>) -> spec_fn(SubgraphView) -> bool {
    |s: SubgraphView| s.current == Some(id) || s.pending == Some(id)
}

/// The test that the pending deployment of a subgraph is `id`.
pub open spec fn awaits(id: Seq<char>) -> spec_fn(SubgraphView) -> bool {
    |s: SubgraphView| s.pending == Some(id)
}

/// The test that an assignment is unused: no subgraph points to its
/// deployment.
pub open spec fn unused(subgraphs: Seq<SubgraphView>) -> spec_fn(AssignmentView) -> bool {
    |a: AssignmentView| !any_row(subgraphs, points_to(a.id))
}

/// The change that says that the assignment of the deployment `id` was
/// written or removed.
pub open spec fn assignment_change(id: Seq<char>, operation: EntityChangeOperation) -> EntityChangeView {
    EntityChangeView {
        subgraph_id: id,
        entity_type: MetadataType::SubgraphDeploymentAssignment.name(),
        entity_id: id,
        operation,
    }
}

/// What a deploy does to the subgraph it names.
#[derive(Debug, Clone, Copy, PartialEq, Eq, Structural)]
pub enum SwitchAction {
    /// Nothing changes.
    Nothing,
    /// The deployment becomes the current one, and none is pending.
    ReplaceCurrent,
    /// The deployment becomes the pending one.
    MakePending,
}

/// What deploying `id` does to a subgraph with the given current and
/// pending deployments, where `current_synced` says whether the current
/// deployment exists and is synced.
///
/// Under `Instant` the deployment becomes the current one and none stays
/// pending; nothing changes where that is so already. Under `Synced`, a deployment that is pending already,
/// or is the current one while none is pending, changes nothing; the
/// current one deployed again while another is pending takes the place of
/// the pending one; any other deployment becomes pending where the current
/// one is synced and replaces the current one where it is not.
pub open spec fn switch_action(
    mode: SubgraphVersionSwitchingMode,
    current_synced: bool,
    current: Option<Seq<char>>,
    pending: Option<Seq<char>>,
    id: Seq<char>,
) -> SwitchAction {
    match mode {
        SubgraphVersionSwitchingMode::Instant => if current == Some(id) && pending is None {
            SwitchAction::Nothing
        } else {
            SwitchAction::ReplaceCurrent
        },
        SubgraphVersionSwitchingMode::Synced => if pending == Some(id) {
            SwitchAction::Nothing
        } else if current == Some(id) {
            if pending is None {
                SwitchAction::Nothing
            } else {
                SwitchAction::MakePending
            }
        } else if current is Some && current_synced {
            SwitchAction::MakePending
        } else {
            SwitchAction::ReplaceCurrent
        },
    }
}

/// A subgraph after `action` was taken for the deployment `id`.
pub open spec fn switched(s: SubgraphView, action: SwitchAction, id: Seq<char>) -> SubgraphView {
    match action {
        SwitchAction::Nothing => s,
        SwitchAction::ReplaceCurrent => SubgraphView { current: Some(id), pending: None, ..s },
        SwitchAction::MakePending => SubgraphView { pending: Some(id), ..s },
    }
}

/// A subgraph after its pending deployment took the place of the current
/// one.
pub open spec fn promoted(s: SubgraphView) -> SubgraphView {
    SubgraphView { current: s.pending, pending: None, ..s }
}

impl PrimaryView {
    /// The first subgraph with the name `name`, if there is one.
    pub open spec fn subgraph(self, name: Seq<char>) -> Option<SubgraphView> {
        first_row(self.subgraphs, subgraph_named(name))
    }

    /// The first assignment of the deployment `id`, if there is one.
    pub open spec fn assignment(self, id: Seq<char>) -> Option<AssignmentView> {
        first_row(self.assignments, assignment_of(id))
    }

    /// The first placement of the deployment `id`, if there is one.
    pub open spec fn site(self, id: Seq<char>) -> Option<SiteView> {
        first_row(self.sites, site_of(id))
    }

    /// The current deployment of the subgraph `name`; none where the name
    /// is unknown or has no deployment.
    pub open spec fn current_of(self, name: Seq<char>) -> Option<Seq<char>> {
        match self.subgraph(name) {
            Some(s) => s.current,
            None => None,
        }
    }

    /// The pending deployment of the subgraph `name`; none where the name
    /// is unknown or nothing is pending.
    pub open spec fn pending_of(self, name: Seq<char>) -> Option<Seq<char>> {
        match self.subgraph(name) {
            Some(s) => s.pending,
            None => None,
        }
    }

    /// The deployments of the subgraph `name`: the current one, then the
    /// pending one, as far as they exist.
    pub open spec fn deployments_of(self, name: Seq<char>) -> Seq<Seq<char>> {
        let current = match self.current_of(name) {
            Some(id) => seq![id],
            None => Seq::empty(),
        };
        let pending = match self.pending_of(name) {
            Some(id) => seq![id],
            None => Seq::empty(),
        };
        current + pending
    }

    /// The tables with a subgraph named `name`: it is added, without
    /// deployments, where there is none.
    pub open spec fn with_subgraph(self, name: Seq<char>) -> PrimaryView {
        if any_row(self.subgraphs, subgraph_named(name)) {
            self
        } else {
            PrimaryView {
                subgraphs: self.subgraphs.push(SubgraphView { name, current: None, pending: None }),
                ..self
            }
        }
    }

    /// The tables with a placement of the deployment `id`: it is placed in
    /// `shard` where it has no placement yet.
    pub open spec fn with_site(self, id: Seq<char>, shard: Seq<char>) -> PrimaryView {
        if any_row(self.sites, site_of(id)) {
            self
        } else {
            PrimaryView { sites: self.sites.push(SiteView { deployment: id, shard }), ..self }
        }
    }

    /// The tables with an assignment of the deployment `id`: it is assigned
    /// to `node` where it has no assignment yet.
    pub open spec fn with_assignment(self, id: Seq<char>, node: Seq<char>) -> PrimaryView {
        if any_row(self.assignments, assignment_of(id)) {
            self
        } else {
            PrimaryView {
                assignments: self.assignments.push(AssignmentView { id, node_id: node }),
                ..self
            }
        }
    }

    /// The tables without the unused assignments.
    pub open spec fn without_unused(self) -> PrimaryView {
        PrimaryView { assignments: delete_where(self.assignments, unused(self.subgraphs)), ..self }
    }

    /// The changes that say which assignments are unused and therefore
    /// removed, in the order of the table.
    pub open spec fn unused_removed(self) -> Seq<EntityChangeView> {
        select_where(self.assignments, unused(self.subgraphs)).map_values(
            |a: AssignmentView| assignment_change(a.id, EntityChangeOperation::Removed),
        )
    }

    /// The tables and the changes after the deployment `id` was deployed
    /// under the name `name` and assigned to `node`.
    ///
    /// The name is created where it is unknown. Where the deploy changes
    /// what the name points to, the deployment gets an assignment unless it
    /// has one, the name is switched, and assignments that became unused
    /// are removed. The changes are those removals, followed by the new
    /// assignment if one was made.
    pub open spec fn deploy(
        self,
        name: Seq<char>,
        id: Seq<char>,
        node: Seq<char>,
        mode: SubgraphVersionSwitchingMode,
        current_synced: bool,
    ) -> (PrimaryView, Seq<EntityChangeView>) {
        let named = self.with_subgraph(name);
        let action = switch_action(
            mode,
            current_synced,
            named.current_of(name),
            named.pending_of(name),
            id,
        );
        if action == SwitchAction::Nothing {
            (named, Seq::empty())
        } else {
            let assigned = named.with_assignment(id, node);
            let switched = PrimaryView {
                subgraphs: update_where(
                    assigned.subgraphs,
                    subgraph_named(name),
                    |s: SubgraphView| switched(s, action, id),
                ),
                ..assigned
            };
            (
                switched.without_unused(),
                switched.unused_removed() + if any_row(self.assignments, assignment_of(id)) {
                    Seq::empty()
                } else {
                    seq![assignment_change(id, EntityChangeOperation::Written)]
                },
            )
        }
    }

    /// The tables and the changes after the deployment `id` finished
    /// syncing: every subgraph for which it is pending makes it the current
    /// one, and assignments that became unused are removed. The changes are
    /// those removals, followed by the writing of the assignment of the
    /// promoted deployment. Nothing changes where it is pending for no
    /// subgraph.
    pub open spec fn promote(self, id: Seq<char>) -> (PrimaryView, Seq<EntityChangeView>) {
        if any_row(self.subgraphs, awaits(id)) {
            let switched = PrimaryView {
                subgraphs: update_where(self.subgraphs, awaits(id), |s: SubgraphView| promoted(s)),
                ..self
            };
            (
                switched.without_unused(),
                switched.unused_removed() + seq![
                    assignment_change(id, EntityChangeOperation::Written),
                ],
            )
        } else {
            (self, Seq::empty())
        }
    }

    /// The tables and the changes after the deployment `id` was assigned to
    /// `node`; the deployment is not found where it has no assignment.
    pub open spec fn reassign(self, id: Seq<char>, node: Seq<char>) -> Result<
        (PrimaryView, Seq<EntityChangeView>),
        ErrorKind,
    > {
        if any_row(self.assignments, assignment_of(id)) {
            Ok(
                (
                    PrimaryView {
                        assignments: update_where(
                            self.assignments,
                            assignment_of(id),
                            |a: AssignmentView| AssignmentView { node_id: node, ..a },
                        ),
                        ..self
                    },
                    seq![assignment_change(id, EntityChangeOperation::Written)],
                ),
            )
        } else {
            Err(ErrorKind::NotFound)
        }
    }

    /// The tables and the changes after the subgraph `name` was removed:
    /// assignments that became unused are removed with it. Nothing changes
    /// where the name is unknown.
    pub open spec fn remove(self, name: Seq<char>) -> (PrimaryView, Seq<EntityChangeView>) {
        if any_row(self.subgraphs, subgraph_named(name)) {
            let removed = PrimaryView {
                subgraphs: delete_where(self.subgraphs, subgraph_named(name)),
                ..self
            };
            (removed.without_unused(), removed.unused_removed())
        } else {
            (self, Seq::empty())
        }
    }
}

impl Clone for SubgraphRecord {
    fn clone(&self) -> (r: Self)
        ensures
            r@ == self@,
    {
        SubgraphRecord {
            name: self.name.clone(),
            current: clone_deployment(&self.current),
            pending: clone_deployment(&self.pending),
        }
    }
}

/// A copy of an optional deployment id.
pub fn clone_deployment(o: &Option<SubgraphDeploymentId>) -> (r: Option<SubgraphDeploymentId>)
    ensures
        deployment_text(r) == deployment_text(*o),
{
    match o {
        Some(id) => Some(id.clone()),
        None => None,
    }
}

/// The text of an optional deployment id.
pub fn deployment_string(o: &Option<SubgraphDeploymentId>) -> (r: Option<String>)
    ensures
        crate::records::text(r) == deployment_text(*o),
{
    match o {
        Some(id) => Some(id.to_string()),
        None => None,
    }
}

/// Whether the optional deployment id `o` is `id`.
pub fn deployment_is_id(o: &Option<SubgraphDeploymentId>, id: &SubgraphDeploymentId) -> (r: bool)
    ensures
        r == (deployment_text(*o) == Some(id@)),
{
    match o {
        Some(other) => other.same(id),
        None => false,
    }
}

/// The change that says that the assignment of the deployment `id` was
/// written or removed.
pub fn make_assignment_change(id: &SubgraphDeploymentId, operation: EntityChangeOperation) -> (r:
    EntityChange)
    ensures
        r@ == assignment_change(id@, operation),
{
    EntityChange {
        subgraph_id: id.clone(),
        entity_type: MetadataType::SubgraphDeploymentAssignment.to_string(),
        entity_id: id.to_string(),
        operation,
    }
}

fn is_used(subgraphs: &Vec<SubgraphRecord>, id: &SubgraphDeploymentId) -> (r: bool)
    ensures
        r == any_row(subgraphs_view(subgraphs@), points_to(id@)),
{
    let ghost p = points_to(id@);
    let mut i: usize = 0;
    while i < subgraphs.len()
        invariant
            i <= subgraphs@.len(),
            p == points_to(id@),
            forall|j: int| 0 <= j < i ==> !p(#[trigger] subgraphs_view(subgraphs@)[j]),
        decreases subgraphs.len() - i,
    {
        if deployment_is_id(&subgraphs[i].current, id) || deployment_is_id(&subgraphs[i].pending, id) {
            assert(p(subgraphs_view(subgraphs@)[i as int]));
            return true;
        }
        i = i + 1;
    }
    proof {
        lemma_first_absent(subgraphs_view(subgraphs@), p);
    }
    false
}

fn is_awaited(subgraphs: &Vec<SubgraphRecord>, id: &SubgraphDeploymentId) -> (r: bool)
    ensures
        r == any_row(subgraphs_view(subgraphs@), awaits(id@)),
{
    let ghost p = awaits(id@);
    let mut i: usize = 0;
    while i < subgraphs.len()
        invariant
            i <= subgraphs@.len(),
            p == awaits(id@),
            forall|j: int| 0 <= j < i ==> !p(#[trigger] subgraphs_view(subgraphs@)[j]),
        decreases subgraphs.len() - i,
    {
        if deployment_is_id(&subgraphs[i].pending, id) {
            assert(p(subgraphs_view(subgraphs@)[i as int]));
            return true;
        }
        i = i + 1;
    }
    proof {
        lemma_first_absent(subgraphs_view(subgraphs@), p);
    }
    false
}

fn switch_rows(
    rows: &mut Vec<SubgraphRecord>,
    name: &SubgraphName,
    action: SwitchAction,
    id: &SubgraphDeploymentId,
)
    ensures
        subgraphs_view(final(rows)@) == update_where(
            subgraphs_view(old(rows)@),
            subgraph_named(name@),
            |s: SubgraphView| switched(s, action, id@),
        ),
{
    let ghost target = update_where(
        subgraphs_view(old(rows)@),
        subgraph_named(name@),
        |s: SubgraphView| switched(s, action, id@),
    );
    let key = name.to_string();
    let n = rows.len();
    let mut i: usize = 0;
    while i < n
        invariant
            i <= n,
            n == rows@.len(),
            n == old(rows)@.len(),
            key@ == name@,
            target == update_where(
                subgraphs_view(old(rows)@),
                subgraph_named(name@),
                |s: SubgraphView| switched(s, action, id@),
            ),
            forall|j: int| 0 <= j < i ==> (#[trigger] rows@[j])@ == target[j],
            forall|j: int| i <= j < n ==> rows@[j] == old(rows)@[j],
        decreases n - i,
    {
        if rows[i].name.to_string() == key {
            match action {
                SwitchAction::Nothing => {},
                SwitchAction::ReplaceCurrent => {
                    rows[i].current = Some(id.clone());
                    rows[i].pending = None;
                },
                SwitchAction::MakePending => {
                    rows[i].pending = Some(id.clone());
                },
            }
        }
        i = i + 1;
    }
}

fn promote_rows(rows: &mut Vec<SubgraphRecord>, id: &SubgraphDeploymentId)
    ensures
        subgraphs_view(final(rows)@) == update_where(
            subgraphs_view(old(rows)@),
            awaits(id@),
            |s: SubgraphView| promoted(s),
        ),
{
    let ghost target = update_where(
        subgraphs_view(old(rows)@),
        awaits(id@),
        |s: SubgraphView| promoted(s),
    );
    let n = rows.len();
    let mut i: usize = 0;
    while i < n
        invariant
            i <= n,
            n == rows@.len(),
            n == old(rows)@.len(),
            target == update_where(
                subgraphs_view(old(rows)@),
                awaits(id@),
                |s: SubgraphView| promoted(s),
            ),
            forall|j: int| 0 <= j < i ==> (#[trigger] rows@[j])@ == target[j],
            forall|j: int| i <= j < n ==> rows@[j] == old(rows)@[j],
        decreases n - i,
    {
        if deployment_is_id(&rows[i].pending, id) {
            rows[i].current = Some(id.clone());
            rows[i].pending = None;
        }
        i = i + 1;
    }
}

fn reassign_rows(rows: &mut Vec<AssignmentRecord>, id: &SubgraphDeploymentId, node: &NodeId)
    ensures
        assignments_view(final(rows)@) == update_where(
            assignments_view(old(rows)@),
            assignment_of(id@),
            |a: AssignmentView| AssignmentView { node_id: node@, ..a },
        ),
{
    let ghost target = update_where(
        assignments_view(old(rows)@),
        assignment_of(id@),
        |a: AssignmentView| AssignmentView { node_id: node@, ..a },
    );
    let n = rows.len();
    let mut i: usize = 0;
    while i < n
        invariant
            i <= n,
            n == rows@.len(),
            n == old(rows)@.len(),
            target == update_where(
                assignments_view(old(rows)@),
                assignment_of(id@),
                |a: AssignmentView| AssignmentView { node_id: node@, ..a },
            ),
            forall|j: int| 0 <= j < i ==> (#[trigger] rows@[j])@ == target[j],
            forall|j: int| i <= j < n ==> rows@[j] == old(rows)@[j],
        decreases n - i,
    {
        if rows[i].id.same(id) {
            rows[i].node_id = node.clone();
        }
        i = i + 1;
    }
}

fn delete_named(rows: &Vec<SubgraphRecord>, name: &SubgraphName) -> (r: Vec<SubgraphRecord>)
    ensures
        subgraphs_view(r@) == delete_where(subgraphs_view(rows@), subgraph_named(name@)),
{
    let ghost all = subgraphs_view(rows@);
    let ghost p = subgraph_named(name@);
    let key = name.to_string();
    let mut kept: Vec<SubgraphRecord> = Vec::new();
    let mut i: usize = 0;
    proof {
        lemma_empty_table(p);
    }
    while i < rows.len()
        invariant
            i <= rows@.len(),
            key@ == name@,
            all == subgraphs_view(rows@),
            p == subgraph_named(name@),
            subgraphs_view(kept@) == delete_where(all.take(i as int), p),
        decreases rows.len() - i,
    {
        proof {
            assert(all.take(i + 1) =~= all.take(i as int).push(all[i as int]));
            lemma_delete_where_push(all.take(i as int), p, all[i as int]);
        }
        if !(rows[i].name.to_string() == key) {
            kept.push(rows[i].clone());
        }
        i = i + 1;
    }
    assert(all.take(rows@.len() as int) =~= all);
    kept
}

impl Primary {
    /// The tables of a primary shard that knows no subgraph and no
    /// deployment.
    pub fn new() -> (r: Primary)
        ensures
            r@ == (PrimaryView {
                subgraphs: Seq::empty(),
                assignments: Seq::empty(),
                sites: Seq::empty(),
            }),
    {
        let primary = Primary { subgraphs: Vec::new(), assignments: Vec::new(), sites: Vec::new() };
        assert(primary@.subgraphs =~= Seq::empty());
        assert(primary@.assignments =~= Seq::empty());
        assert(primary@.sites =~= Seq::empty());
        primary
    }

    /// The index of the first subgraph with the name `name`.
    pub fn find_subgraph(&self, name: &str) -> (r: Option<usize>)
        ensures
            match r {
                Some(i) => i < self.subgraphs@.len() && is_first(
                    self@.subgraphs,
                    subgraph_named(name@),
                    i as int,
                ) && self@.subgraph(name@) == Some(self.subgraphs@[i as int]@),
                None => self@.subgraph(name@) is None && !any_row(
                    self@.subgraphs,
                    subgraph_named(name@),
                ),
            },
    {
        let ghost p = subgraph_named(name@);
        let key = name.to_owned();
        let mut i: usize = 0;
        while i < self.subgraphs.len()
            invariant
                i <= self.subgraphs@.len(),
                key@ == name@,
                p == subgraph_named(name@),
                forall|j: int| 0 <= j < i ==> !p(#[trigger] self@.subgraphs[j]),
            decreases self.subgraphs.len() - i,
        {
            if self.subgraphs[i].name.to_string() == key {
                proof {
                    lemma_first_found(self@.subgraphs, p, i as int);
                }
                return Some(i);
            }
            i = i + 1;
        }
        proof {
            lemma_first_absent(self@.subgraphs, p);
        }
        None
    }

    /// The index of the first assignment of the deployment `id`.
    pub fn find_assignment(&self, id: &SubgraphDeploymentId) -> (r: Option<usize>)
        ensures
            match r {
                Some(i) => i < self.assignments@.len() && is_first(
                    self@.assignments,
                    assignment_of(id@),
                    i as int,
                ) && self@.assignment(id@) == Some(self.assignments@[i as int]@),
                None => self@.assignment(id@) is None && !any_row(
                    self@.assignments,
                    assignment_of(id@),
                ),
            },
    {
        let ghost p = assignment_of(id@);
        let mut i: usize = 0;
        while i < self.assignments.len()
            invariant
                i <= self.assignments@.len(),
                p == assignment_of(id@),
                forall|j: int| 0 <= j < i ==> !p(#[trigger] self@.assignments[j]),
            decreases self.assignments.len() - i,
        {
            if self.assignments[i].id.same(id) {
                proof {
                    lemma_first_found(self@.assignments, p, i as int);
                }
                return Some(i);
            }
            i = i + 1;
        }
        proof {
            lemma_first_absent(self@.assignments, p);
        }
        None
    }

    /// The index of the first placement of the deployment `id`.
    pub fn find_site(&self, id: &SubgraphDeploymentId) -> (r: Option<usize>)
        ensures
            match r {
                Some(i) => i < self.sites@.len() && is_first(self@.sites, site_of(id@), i as int)
                    && self@.site(id@) == Some(self.sites@[i as int]@),
                None => self@.site(id@) is None && !any_row(self@.sites, site_of(id@)),
            },
    {
        let ghost p = site_of(id@);
        let mut i: usize = 0;
        while i < self.sites.len()
            invariant
                i <= self.sites@.len(),
                p == site_of(id@),
                forall|j: int| 0 <= j < i ==> !p(#[trigger] self@.sites[j]),
            decreases self.sites.len() - i,
        {
            if self.sites[i].deployment.same(id) {
                proof {
                    lemma_first_found(self@.sites, p, i as int);
                }
                return Some(i);
            }
            i = i + 1;
        }
        proof {
            lemma_first_absent(self@.sites, p);
        }
        None
    }

    /// The current deployment of the subgraph `name`; not found where the
    /// name is unknown or has no deployment.
    pub fn current_deployment_for_subgraph(&self, name: &SubgraphName) -> (r: Result<
        SubgraphDeploymentId,
        StoreError,
    >)
        ensures
            match self@.current_of(name@) {
                Some(id) => r is Ok && r->Ok_0@ == id,
                None => r is Err && r->Err_0.spec_kind() == ErrorKind::NotFound
                    && r->Err_0.spec_message() == name@,
            },
    {
        match self.find_subgraph(name.as_str()) {
            Some(i) => match &self.subgraphs[i].current {
                Some(id) => Ok(id.clone()),
                None => Err(StoreError::NotFound(name.to_string())),
            },
            None => Err(StoreError::NotFound(name.to_string())),
        }
    }

    /// The current deployment of the subgraph `name`, if it has one.
    pub fn current_deployment(&self, name: &SubgraphName) -> (r: Option<SubgraphDeploymentId>)
        ensures
            deployment_text(r) == self@.current_of(name@),
    {
        match self.find_subgraph(name.as_str()) {
            Some(i) => clone_deployment(&self.subgraphs[i].current),
            None => None,
        }
    }

    /// The current and the pending deployment of the subgraph `name`.
    pub fn versions_for_subgraph(&self, name: &str) -> (r: (Option<String>, Option<String>))
        ensures
            crate::records::text(r.0) == self@.current_of(name@),
            crate::records::text(r.1) == self@.pending_of(name@),
    {
        match self.find_subgraph(name) {
            Some(i) => (
                deployment_string(&self.subgraphs[i].current),
                deployment_string(&self.subgraphs[i].pending),
            ),
            None => (None, None),
        }
    }

    /// The current deployment of the subgraph `name` where `use_current`
    /// holds, else its pending deployment.
    pub fn subgraph_version(&self, name: &str, use_current: bool) -> (r: Option<String>)
        ensures
            crate::records::text(r) == if use_current {
                self@.current_of(name@)
            } else {
                self@.pending_of(name@)
            },
    {
        let (current, pending) = self.versions_for_subgraph(name);
        if use_current {
            current
        } else {
            pending
        }
    }

    /// The deployments of the subgraph `name`: the current one, then the
    /// pending one, as far as they exist.
    pub fn deployments_for_subgraph(&self, name: &str) -> (r: Vec<String>)
        ensures
            crate::records::texts(r@) == self@.deployments_of(name@),
    {
        let (current, pending) = self.versions_for_subgraph(name);
        let mut out: Vec<String> = Vec::new();
        match current {
            Some(id) => {
                out.push(id);
            },
            None => {},
        }
        match pending {
            Some(id) => {
                out.push(id);
            },
            None => {},
        }
        out
    }

    /// The node to which the deployment `id` is assigned.
    pub fn assigned_node(&self, id: &SubgraphDeploymentId) -> (r: Option<NodeId>)
        ensures
            match self@.assignment(id@) {
                Some(a) => r is Some && r->0@ == a.node_id,
                None => r is None,
            },
    {
        match self.find_assignment(id) {
            Some(i) => Some(self.assignments[i].node_id.clone()),
            None => None,
        }
    }

    /// The shard in which the data of the deployment `id` lies; not found
    /// where no placement is recorded.
    pub fn shard(&self, id: &SubgraphDeploymentId) -> (r: Result<String, StoreError>)
        ensures
            match self@.site(id@) {
                Some(site) => r is Ok && r->Ok_0@ == site.shard,
                None => r is Err && r->Err_0.spec_kind() == ErrorKind::NotFound
                    && r->Err_0.spec_message() == id@,
            },
    {
        match self.find_site(id) {
            Some(i) => Ok(self.sites[i].shard.clone()),
            None => Err(StoreError::NotFound(id.to_string())),
        }
    }

    /// Makes sure that there is a subgraph with the name `name`, and
    /// returns its id, which is the name.
    pub fn create_subgraph(&mut self, name: &SubgraphName) -> (r: String)
        ensures
            final(self)@ == old(self)@.with_subgraph(name@),
            r@ == name@,
    {
        match self.find_subgraph(name.as_str()) {
            Some(_) => {},
            None => {
                self.subgraphs.push(
                    SubgraphRecord { name: name.clone(), current: None, pending: None },
                );
                assert(self@.subgraphs =~= old(self)@.subgraphs.push(
                    SubgraphView { name: name@, current: None, pending: None },
                ));
            },
        }
        name.to_string()
    }

    /// Records that the data of the deployment `id` lies in `shard`, unless
    /// a placement of the deployment is recorded already.
    pub fn place_deployment(&mut self, id: &SubgraphDeploymentId, shard: &str)
        ensures
            final(self)@ == old(self)@.with_site(id@, shard@),
    {
        match self.find_site(id) {
            Some(_) => {},
            None => {
                self.sites.push(SiteRecord { deployment: id.clone(), shard: shard.to_owned() });
                assert(self@.sites =~= old(self)@.sites.push(
                    SiteView { deployment: id@, shard: shard@ },
                ));
            },
        }
    }

    /// Removes the assignments of deployments to which no subgraph points,
    /// and returns one change for each.
    pub fn remove_unused_assignments(&mut self) -> (r: Vec<EntityChange>)
        ensures
            final(self)@ == old(self)@.without_unused(),
            changes_view(r@) == old(self)@.unused_removed(),
    {
        let ghost all = self@.assignments;
        let ghost p = unused(self@.subgraphs);
        let ghost f = |a: AssignmentView| assignment_change(a.id, EntityChangeOperation::Removed);
        let mut kept: Vec<AssignmentRecord> = Vec::new();
        let mut changes: Vec<EntityChange> = Vec::new();
        let mut i: usize = 0;
        proof {
            lemma_empty_table(p);
        }
        while i < self.assignments.len()
            invariant
                i <= self.assignments@.len(),
                *self == *old(self),
                all == self@.assignments,
                p == unused(self@.subgraphs),
                f == (|a: AssignmentView|
                    assignment_change(a.id, EntityChangeOperation::Removed)),
                assignments_view(kept@) == delete_where(all.take(i as int), p),
                changes_view(changes@) == select_where(all.take(i as int), p).map_values(f),
            decreases self.assignments.len() - i,
        {
            proof {
                assert(all.take(i + 1) =~= all.take(i as int).push(all[i as int]));
                lemma_delete_where_push(all.take(i as int), p, all[i as int]);
                lemma_select_where_push(all.take(i as int), p, all[i as int]);
            }
            if is_used(&self.subgraphs, &self.assignments[i].id) {
                kept.push(self.assignments[i].clone());
            } else {
                changes.push(
                    make_assignment_change(&self.assignments[i].id, EntityChangeOperation::Removed),
                );
                assert(select_where(all.take(i as int), p).push(all[i as int]).map_values(f)
                    =~= select_where(all.take(i as int), p).map_values(f).push(f(all[i as int])));
            }
            i = i + 1;
        }
        assert(all.take(self.assignments@.len() as int) =~= all);
        self.assignments = kept;
        changes
    }

    /// Deploys the deployment `id` under the name `name` and assigns it to
    /// `node_id`. `current_synced` says whether the current deployment of
    /// the name exists and is synced. Returns the changes to assignments.
    pub fn create_subgraph_version(
        &mut self,
        name: SubgraphName,
        id: &SubgraphDeploymentId,
        node_id: NodeId,
        mode: SubgraphVersionSwitchingMode,
        current_synced: bool,
    ) -> (r: Vec<EntityChange>)
        ensures
            (final(self)@, changes_view(r@)) == old(self)@.deploy(
                name@,
                id@,
                node_id@,
                mode,
                current_synced,
            ),
    {
        self.create_subgraph(&name);
        let ghost named = self@;
        proof {
            if !any_row(old(self)@.subgraphs, subgraph_named(name@)) {
                let fresh = old(self)@.subgraphs.len() as int;
                assert(subgraph_named(name@)(named.subgraphs[fresh]));
            }
        }
        let action = match self.find_subgraph(name.as_str()) {
            Some(i) => decide_switch(
                mode,
                current_synced,
                &self.subgraphs[i].current,
                &self.subgraphs[i].pending,
                id,
            ),
            None => SwitchAction::Nothing,
        };
        match action {
            SwitchAction::Nothing => {
                return Vec::new();
            },
            _ => {},
        }
        let new_assignment = match self.find_assignment(id) {
            Some(_) => false,
            None => {
                self.assignments.push(AssignmentRecord { id: id.clone(), node_id });
                assert(self@.assignments =~= named.assignments.push(
                    AssignmentView { id: id@, node_id: node_id@ },
                ));
                true
            },
        };
        switch_rows(&mut self.subgraphs, &name, action, id);
        let mut changes = self.remove_unused_assignments();
        let ghost removed = changes_view(changes@);
        if new_assignment {
            changes.push(make_assignment_change(id, EntityChangeOperation::Written));
            assert(changes_view(changes@) =~= removed + seq![
                assignment_change(id@, EntityChangeOperation::Written),
            ]);
        }
        changes
    }

    /// Makes the deployment `id` the current one of every subgraph for
    /// which it is pending. Returns the changes to assignments: the
    /// removals of those that became unused, then the writing of that of
    /// the promoted deployment.
    pub fn promote_deployment(&mut self, id: &SubgraphDeploymentId) -> (r: Vec<EntityChange>)
        ensures
            (final(self)@, changes_view(r@)) == old(self)@.promote(id@),
    {
        if is_awaited(&self.subgraphs, id) {
            promote_rows(&mut self.subgraphs, id);
            let mut changes = self.remove_unused_assignments();
            let ghost removed = changes_view(changes@);
            changes.push(make_assignment_change(id, EntityChangeOperation::Written));
            assert(changes_view(changes@) =~= removed + seq![
                assignment_change(id@, EntityChangeOperation::Written),
            ]);
            changes
        } else {
            Vec::new()
        }
    }

    /// Assigns the deployment `id` to `node`. The change is reported also
    /// where the deployment was assigned to `node` before.
    pub fn reassign_subgraph(&mut self, id: &SubgraphDeploymentId, node: &NodeId) -> (r: Result<
        Vec<EntityChange>,
        StoreError,
    >)
        ensures
            match old(self)@.reassign(id@, node@) {
                Ok((after, changes)) => {
                    &&& r is Ok
                    &&& changes_view(r->Ok_0@) == changes
                    &&& final(self)@ == after
                },
                Err(k) => r is Err && r->Err_0.spec_kind() == k && r->Err_0.spec_message() == id@
                    && final(self)@ == old(self)@,
            },
    {
        match self.find_assignment(id) {
            None => Err(StoreError::NotFound(id.to_string())),
            Some(_) => {
                reassign_rows(&mut self.assignments, id, node);
                let mut changes: Vec<EntityChange> = Vec::new();
                changes.push(make_assignment_change(id, EntityChangeOperation::Written));
                assert(changes_view(changes@) =~= seq![
                    assignment_change(id@, EntityChangeOperation::Written),
                ]);
                Ok(changes)
            },
        }
    }

    /// Removes the subgraph `name`. Returns the changes to assignments.
    pub fn remove_subgraph(&mut self, name: SubgraphName) -> (r: Vec<EntityChange>)
        ensures
            (final(self)@, changes_view(r@)) == old(self)@.remove(name@),
    {
        match self.find_subgraph(name.as_str()) {
            Some(_) => {
                self.subgraphs = delete_named(&self.subgraphs, &name);
                self.remove_unused_assignments()
            },
            None => {
                Vec::new()
            },
        }
    }
}

/// Decides what deploying `id` does to a subgraph with the given current
/// and pending deployments.
pub fn decide_switch(
    mode: SubgraphVersionSwitchingMode,
    current_synced: bool,
    current: &Option<SubgraphDeploymentId>,
    pending: &Option<SubgraphDeploymentId>,
    id: &SubgraphDeploymentId,
) -> (r: SwitchAction)
    ensures
        r == switch_action(
            mode,
            current_synced,
            deployment_text(*current),
            deployment_text(*pending),
            id@,
        ),
{
    match mode {
        SubgraphVersionSwitchingMode::Instant => {
            if deployment_is_id(current, id) && pending.is_none() {
                SwitchAction::Nothing
            } else {
                SwitchAction::ReplaceCurrent
            }
        },
        SubgraphVersionSwitchingMode::Synced => {
            if deployment_is_id(pending, id) {
                SwitchAction::Nothing
            } else if deployment_is_id(current, id) {
                if pending.is_none() {
                    SwitchAction::Nothing
                } else {
                    SwitchAction::MakePending
                }
            } else if current.is_some() && current_synced {
                SwitchAction::MakePending
            } else {
                SwitchAction::ReplaceCurrent
            }
        },
    }
}

} // verus!
