//! The store as a whole: the primary's metadata, the shards with the data
//! of the deployments, and the bus on which changes are announced. Every
//! operation finds the shard of the deployment it is about, changes the
//! shard and the primary in a fixed order, and publishes one event.

use crate::block::{BlockPointerView, EthereumBlockPointer};
use crate::deployment::{
    all_revertible, block_ptr_event, clear_failure, exists_and_synced, forward, forward_block_ptr,
    health_without_failure, is_synced, mark_synced, revert, revert_block_ptr, set_synced, state,
    state_message, state_of, unfail, DeploymentState, DeploymentStateView,
};
use crate::entity::{create_deployment, DeploymentEntityView, Schema, SubgraphDeploymentEntity};
use crate::error::{yields, ErrorKind, StoreError};
use crate::event::{
    changes_view, BusView, ChangeEventBus, EntityChange, EntityChangeOperation, EntityChangeView,
    EventTap, StoreEvent,
};
use crate::ids::{meta_id, NodeId, SubgraphDeploymentId, SubgraphName};
use crate::metadata::{EntityModification, MetadataOperation};
use crate::primary::{Primary, PrimaryView, SiteRecord, SubgraphVersionSwitchingMode};
use crate::query_store::{QueryStore, ReplicaId};
use crate::records::{clone_texts, texts, DeploymentView, Store, StoreView};
use crate::shard_data::{require_single_shard, single_shard, straddling_message, ShardData};
use crate::status::{
    contains_text, deployment_statuses, infos_view, placeable, placed_in, requested, shard_name,
    shards_of, statuses, Filter, FilterView, Info, InfoView,
};
use crate::table::{
    any_row, first_where, is_first, lemma_empty_table, lemma_first_absent, lemma_first_found,
    lemma_select_where_push, select_where,
};
use vstd::prelude::*;

verus! {

/// The name of the primary shard.
pub open spec fn primary_shard() -> Seq<char> {
    "primary"@
}

/// The name of the primary shard.
pub const PRIMARY_SHARD: &'static str = "primary";

/// A shard: its name and its tables.
#[derive(Debug, PartialEq, Eq)]
pub struct Shard {
    pub name: String,
    pub store: Store,
}

/// The mathematical value of a shard.
pub struct ShardView {
    pub name: Seq<char>,
    pub store: StoreView,
}

impl View for Shard {
    type V = ShardView;

    open spec fn view(&self) -> ShardView {
        ShardView { name: self.name@, store: self.store@ }
    }
}

/// The values of a list of shards, in order.
pub open spec fn shards_view(shards: Seq<Shard>) -> Seq<ShardView> {
    shards.map_values(|s: Shard| s@)
}

/// The test that a shard has the name `name`.
pub open spec fn shard_named(name: Seq<char>) -> spec_fn(ShardView) -> bool {
    |s: ShardView| s.name == name
}

/// Whether no two shards of `shards` have the same name.
pub open spec fn distinct_names(shards: Seq<ShardView>) -> bool {
    forall|i: int, j: int|
        0 <= i < shards.len() && 0 <= j < shards.len() && i != j ==> (#[trigger] shards[i]).name
            != (#[trigger] shards[j]).name
}

/// Whether `shards` can make up a store: no two shards have the same name,
/// and one of them is the primary shard.
pub open spec fn valid_shards(shards: Seq<ShardView>) -> bool {
    distinct_names(shards) && any_row(shards, shard_named(primary_shard()))
}

/// The mathematical value of a sharded store.
pub struct ShardedStoreView {
    /// The metadata that only the primary shard keeps.
    pub primary: PrimaryView,
    /// The shards, the primary shard among them.
    pub shards: Seq<ShardView>,
    /// The bus on which events are published.
    pub bus: BusView,
}

impl ShardedStoreView {
    /// A store is valid when no two of its shards have the same name and
    /// one of them is the primary shard. Every store is built valid and
    /// stays so.
    pub open spec fn valid(self) -> bool {
        valid_shards(self.shards)
    }

    /// The index of the shard with the name `name`.
    pub open spec fn shard_index(self, name: Seq<char>) -> Option<int> {
        first_where(self.shards, shard_named(name))
    }

    /// The index of the shard that holds the data of the deployment `id`.
    /// The deployment is not found where the primary has recorded no
    /// placement for it, and its shard is unknown where the store has no
    /// shard of the recorded name.
    pub open spec fn store_index(self, id: Seq<char>) -> Result<int, ErrorKind> {
        match self.primary.site(id) {
            None => Err(ErrorKind::NotFound),
            Some(site) => match self.shard_index(site.shard) {
                Some(k) => Ok(k),
                None => Err(ErrorKind::UnknownShard),
            },
        }
    }

    /// The name of the shard that holds the data of the deployment `id`.
    pub open spec fn shard_of(self, id: Seq<char>) -> Result<Seq<char>, ErrorKind> {
        match self.store_index(id) {
            Ok(k) => Ok(self.shards[k].name),
            Err(e) => Err(e),
        }
    }

    /// What is said where the shard of the deployment `id` cannot be found:
    /// the deployment, where the primary has not placed it, or else the
    /// name of the shard that the store does not have.
    pub open spec fn placement_message(self, id: Seq<char>) -> Seq<char> {
        match self.primary.site(id) {
            None => id,
            Some(site) => site.shard,
        }
    }

    /// The test that the store has no shard with a given name.
    pub open spec fn shard_missing(self) -> spec_fn(Seq<char>) -> bool {
        |name: Seq<char>| self.shard_index(name) is None
    }

    /// The store with `store` in place of the tables of the shard `k`.
    pub open spec fn with_store(self, k: int, store: StoreView) -> ShardedStoreView {
        ShardedStoreView {
            shards: self.shards.update(k, ShardView { store, ..self.shards[k] }),
            ..self
        }
    }

    /// The store with `primary` in place of the primary's metadata.
    pub open spec fn with_primary(self, primary: PrimaryView) -> ShardedStoreView {
        ShardedStoreView { primary, ..self }
    }

    /// The store after `event` was published.
    pub open spec fn published(self, event: Seq<EntityChangeView>) -> ShardedStoreView {
        ShardedStoreView { bus: self.bus.published(event), ..self }
    }

    /// The store with `rows` in place of the deployment records of the
    /// shard `k`.
    pub open spec fn with_deployments(self, k: int, rows: Seq<DeploymentView>) -> ShardedStoreView {
        self.with_store(k, self.shards[k].store.with_deployments(rows))
    }

    /// Whether the deployment `current` exists and is synced, as its shard
    /// tells; `false` where there is no such deployment to ask about.
    pub open spec fn current_synced(self, current: Option<Seq<char>>) -> Result<bool, ErrorKind> {
        match current {
            None => Ok(false),
            Some(id) => match self.store_index(id) {
                Err(e) => Err(e),
                Ok(k) => Ok(is_synced(self.shards[k].store.deployments, id)),
            },
        }
    }

    /// The shard in which the deployment `id` is created when the shard
    /// `shard`, which the store must have, is asked for: the shard in which
    /// the primary has placed it already, or else `shard`. The primary is
    /// the one source of truth for where a deployment lies, so that a
    /// deployment is never written to two shards.
    pub open spec fn target_shard(self, id: Seq<char>, shard: Seq<char>) -> Seq<char> {
        match self.primary.site(id) {
            Some(site) => site.shard,
            None => shard,
        }
    }

    /// The outcome of deploying the deployment `id` under the name `name`
    /// with its data in the shard `shard`, and the store after it.
    ///
    /// First of all the store must have the shard `shard`: where it has
    /// not, the shard is unknown and nothing changes, whatever the primary
    /// has recorded. Then the target shard, which is the shard in which the
    /// deployment is placed already, or else `shard`, creates the
    /// deployment; where the store does not have that shard, it is unknown
    /// and nothing changes.
    /// Next the shard of the current deployment of the name is asked
    /// whether that deployment is synced; where that shard cannot be
    /// found, the operation fails, and what the target shard wrote stays.
    /// Last the primary records the placement of the deployment and
    /// switches the name, and the changes of the shard, followed by those
    /// of the primary, are published as one event.
    pub open spec fn create_deployment(
        self,
        name: Seq<char>,
        shard: Seq<char>,
        id: Seq<char>,
        entity: DeploymentEntityView,
        node: Seq<char>,
        mode: SubgraphVersionSwitchingMode,
        replace: bool,
    ) -> (Result<(), ErrorKind>, ShardedStoreView) {
        let target = self.target_shard(id, shard);
        match (self.shard_index(shard), self.shard_index(target)) {
            (None, _) => (Err(ErrorKind::UnknownShard), self),
            (Some(_), None) => (Err(ErrorKind::UnknownShard), self),
            (Some(_), Some(k)) => {
                let (store, created) = self.shards[k].store.create(id, entity, replace);
                let in_shard = self.with_store(k, store);
                match in_shard.current_synced(self.primary.current_of(name)) {
                    Err(e) => (Err(e), in_shard),
                    Ok(synced) => {
                        let (primary, switched) = self.primary.with_site(id, target).deploy(
                            name,
                            id,
                            node,
                            mode,
                            synced,
                        );
                        (
                            Ok(()),
                            in_shard.with_primary(primary).published(created + switched),
                        )
                    },
                }
            },
        }
    }

    /// What is said where a deployment cannot be created: the name of the
    /// shard that was asked for, where the store does not have it; else
    /// the name of the shard in which the deployment is placed, where the
    /// store does not have that; or else why the shard of the current
    /// deployment of the name cannot be found.
    pub open spec fn create_message(self, name: Seq<char>, shard: Seq<char>, id: Seq<char>) -> Seq<
        char,
    > {
        if self.shard_index(shard) is None {
            shard
        } else if self.shard_index(self.target_shard(id, shard)) is None {
            self.target_shard(id, shard)
        } else {
            match self.primary.current_of(name) {
                Some(current) => self.placement_message(current),
                None => Seq::empty(),
            }
        }
    }

    /// The outcome of marking the deployment `id` as synced, and the store
    /// after it. The shard of the deployment is found first; where that
    /// fails, nothing changes. Then the primary makes the deployment the
    /// current one wherever it is pending, the shard marks its record as
    /// synced, and the changes of the primary are published as one event:
    /// where the deployment was pending, the removal of the assignments
    /// that became unused and the writing of its own; else none.
    pub open spec fn mark_synced(self, id: Seq<char>) -> (Result<(), ErrorKind>, ShardedStoreView) {
        match self.store_index(id) {
            Err(e) => (Err(e), self),
            Ok(k) => {
                let (primary, changes) = self.primary.promote(id);
                (
                    Ok(()),
                    self.with_primary(primary).with_deployments(
                        k,
                        mark_synced(self.shards[k].store.deployments, id),
                    ).published(changes),
                )
            },
        }
    }

    /// The outcome of assigning the deployment `id` to `node`, and the
    /// store after it. Where the deployment has an assignment, the change
    /// is published, also where the node is the one it was assigned to
    /// before.
    pub open spec fn reassign(self, id: Seq<char>, node: Seq<char>) -> (
        Result<(), ErrorKind>,
        ShardedStoreView,
    ) {
        match self.primary.reassign(id, node) {
            Err(e) => (Err(e), self),
            Ok((primary, changes)) => (Ok(()), self.with_primary(primary).published(changes)),
        }
    }

    /// The store after the subgraph `name` was removed: the changes to
    /// assignments are published as one event.
    pub open spec fn remove_subgraph(self, name: Seq<char>) -> ShardedStoreView {
        let (primary, changes) = self.primary.remove(name);
        self.with_primary(primary).published(changes)
    }

    /// The state of the deployment `id`, read in the shard that holds its
    /// data.
    pub open spec fn state_of(self, id: Seq<char>) -> Result<DeploymentStateView, ErrorKind> {
        match self.store_index(id) {
            Err(e) => Err(e),
            Ok(k) => state_of(self.shards[k].store.deployments, id),
        }
    }

    /// What is said where the state of the deployment `id` cannot be given:
    /// why its shard cannot be found, or what its shard says.
    pub open spec fn state_message(self, id: Seq<char>) -> Seq<char> {
        match self.store_index(id) {
            Err(_) => self.placement_message(id),
            Ok(k) => state_message(self.shards[k].store.deployments, id),
        }
    }

    /// What is said where the state of the current deployment of the
    /// subgraph `name` cannot be given: the name, where it has no current
    /// deployment, or else what is said of that deployment.
    pub open spec fn state_of_name_message(self, name: Seq<char>) -> Seq<char> {
        match self.primary.current_of(name) {
            None => name,
            Some(id) => self.state_message(id),
        }
    }

    /// The state of the current deployment of the subgraph `name`; not
    /// found where the name is unknown or has no deployment.
    pub open spec fn state_of_name(self, name: Seq<char>) -> Result<DeploymentStateView, ErrorKind> {
        match self.primary.current_of(name) {
            None => Err(ErrorKind::NotFound),
            Some(id) => self.state_of(id),
        }
    }

    /// What the shards `shards` tell about the deployments `ids`, shard
    /// after shard: each shard reports on those of the deployments that
    /// are placed in it.
    pub open spec fn collect(self, shards: Seq<Seq<char>>, ids: Seq<Seq<char>>) -> Seq<InfoView>
        decreases shards.len(),
    {
        if shards.len() == 0 {
            Seq::empty()
        } else {
            self.collect(shards.drop_last(), ids) + match self.shard_index(shards.last()) {
                Some(k) => statuses(
                    self.shards[k].store.deployments,
                    select_where(ids, placed_in(self.primary, shards.last())),
                ),
                None => Seq::empty(),
            }
        }
    }

    /// What is said where a report fails: the name of the first shard, in
    /// the order of the report, that the store does not have.
    pub open spec fn status_message(self, filter: FilterView) -> Seq<char> {
        let ids = select_where(requested(self.primary, filter), placeable(self.primary));
        let shards = shards_of(self.primary, ids);
        match first_where(shards, self.shard_missing()) {
            Some(i) => shards[i],
            None => Seq::empty(),
        }
    }

    /// The report that `filter` asks for. Of the deployments asked for,
    /// those with a malformed id and those that the primary has not placed
    /// are passed over. The others are grouped by their shard, the shards
    /// in the order in which they first occur, and each shard reports on
    /// its group. The report fails where one of these shards is unknown to
    /// the store.
    pub open spec fn status(self, filter: FilterView) -> Result<Seq<InfoView>, ErrorKind> {
        let ids = select_where(requested(self.primary, filter), placeable(self.primary));
        let shards = shards_of(self.primary, ids);
        if exists|i: int| 0 <= i < shards.len() && self.shard_index(#[trigger] shards[i]) is None {
            Err(ErrorKind::UnknownShard)
        } else {
            Ok(self.collect(shards, ids))
        }
    }

    /// The outcome of clearing the failure of the deployment `id`, and the
    /// store after it. Where the shard of the deployment is not found,
    /// nothing changes. Nothing is published.
    pub open spec fn unfail(self, id: Seq<char>) -> (Result<(), ErrorKind>, ShardedStoreView) {
        match self.store_index(id) {
            Err(e) => (Err(e), self),
            Ok(k) => (
                Ok(()),
                self.with_deployments(
                    k,
                    clear_failure(
                        self.shards[k].store.deployments,
                        id,
                        health_without_failure(self.shards[k].store.errors, id),
                    ),
                ),
            ),
        }
    }

    /// The outcome of processing a block for the deployment `id`, and the
    /// store after it. The batch of writes must not straddle shards, and
    /// the shard of the deployment must be found; where either fails,
    /// nothing changes. Then the block pointer of the deployment advances
    /// to `ptr`, and one event is published: the changes that the writes
    /// make, followed by the change of the record of the deployment.
    pub open spec fn transact(
        self,
        id: Seq<char>,
        ptr: BlockPointerView,
        mods: Seq<EntityModification>,
    ) -> (Result<(), ErrorKind>, ShardedStoreView) {
        if !single_shard(mods, id) {
            (Err(ErrorKind::CrossShardContractViolation), self)
        } else {
            match self.store_index(id) {
                Err(e) => (Err(e), self),
                Ok(k) => (
                    Ok(()),
                    self.with_deployments(
                        k,
                        forward(self.shards[k].store.deployments, id, ptr),
                    ).published(modification_changes(mods) + block_ptr_event(id)),
                ),
            }
        }
    }

    /// The outcome of a batch of writes to the metadata of the deployment
    /// `target`, and the store after it. The batch must not straddle
    /// shards, and the shard of the deployment must be found; where either
    /// fails, nothing changes. Else one event with the change of each
    /// write is published.
    pub open spec fn apply(self, target: Seq<char>, operations: Seq<MetadataOperation>) -> (
        Result<(), ErrorKind>,
        ShardedStoreView,
    ) {
        if !single_shard(operations, target) {
            (Err(ErrorKind::CrossShardContractViolation), self)
        } else {
            match self.store_index(target) {
                Err(e) => (Err(e), self),
                Ok(_) => (Ok(()), self.published(operation_changes(operations))),
            }
        }
    }

    /// What is said where a batch for the deployment `id` is refused: that
    /// it straddles shards, or why the shard of the deployment cannot be
    /// found.
    pub open spec fn batch_message<T: ShardData>(self, id: Seq<char>, batch: Seq<T>) -> Seq<char> {
        if !single_shard(batch, id) {
            straddling_message(id)
        } else {
            self.placement_message(id)
        }
    }

    /// What is said where the block pointer of the deployment `id` cannot
    /// be reverted: why its shard cannot be found, or that a counter is at
    /// the end of its range.
    pub open spec fn revert_message(self, id: Seq<char>) -> Seq<char> {
        match self.store_index(id) {
            Err(_) => self.placement_message(id),
            Ok(_) => "a reorg counter of deployment `"@ + id + "` is out of range"@,
        }
    }

    /// The outcome of reverting the block pointer of the deployment `id`
    /// to `ptr`, and the store after it. Where the shard of the deployment
    /// is not found, or a counter of the deployment is at the end of its
    /// range, nothing changes. Else the pointer is reverted and the change
    /// of the record of the deployment is published.
    pub open spec fn revert(self, id: Seq<char>, ptr: BlockPointerView) -> (
        Result<(), ErrorKind>,
        ShardedStoreView,
    ) {
        match self.store_index(id) {
            Err(e) => (Err(e), self),
            Ok(k) => if all_revertible(self.shards[k].store.deployments, id) {
                (
                    Ok(()),
                    self.with_deployments(
                        k,
                        revert(self.shards[k].store.deployments, id, ptr),
                    ).published(block_ptr_event(id)),
                )
            } else {
                (Err(ErrorKind::ConstraintViolation), self)
            },
        }
    }
}

/// The change that a write to an entity makes: the entity was removed, or
/// it was written.
pub open spec fn modification_change(m: EntityModification) -> EntityChangeView {
    let key = m.spec_entity_key();
    EntityChangeView {
        subgraph_id: key.subgraph_id@,
        entity_type: key.entity_type@,
        entity_id: key.entity_id@,
        operation: if m is Remove {
            EntityChangeOperation::Removed
        } else {
            EntityChangeOperation::Written
        },
    }
}

/// The changes that the writes of a batch make, in order.
pub open spec fn modification_changes(mods: Seq<EntityModification>) -> Seq<EntityChangeView> {
    mods.map_values(|m: EntityModification| modification_change(m))
}

/// The change that a write to a metadata entity makes: the entity was
/// removed, or it was written.
pub open spec fn operation_change(op: MetadataOperation) -> EntityChangeView {
    EntityChangeView {
        subgraph_id: op.spec_deployment()@,
        entity_type: op.spec_entity().name(),
        entity_id: op.spec_id()@,
        operation: if op is Remove {
            EntityChangeOperation::Removed
        } else {
            EntityChangeOperation::Written
        },
    }
}

/// The changes that the writes of a batch of metadata make, in order.
pub open spec fn operation_changes(operations: Seq<MetadataOperation>) -> Seq<EntityChangeView> {
    operations.map_values(|op: MetadataOperation| operation_change(op))
}

/// Whether `r` is the outcome `expected`, messages left aside.
pub open spec fn outcome_is(r: Result<(), StoreError>, expected: Result<(), ErrorKind>) -> bool {
    match expected {
        Ok(_) => r is Ok,
        Err(k) => r is Err && r->Err_0.spec_kind() == k,
    }
}

fn collect_modification_changes(mods: &Vec<EntityModification>) -> (r: Vec<EntityChange>)
    ensures
        changes_view(r@) == modification_changes(mods@),
{
    let mut out: Vec<EntityChange> = Vec::new();
    let mut i: usize = 0;
    while i < mods.len()
        invariant
            i <= mods@.len(),
            out@.len() == i,
            forall|j: int| 0 <= j < i ==> (#[trigger] out@[j])@ == modification_change(mods@[j]),
        decreases mods.len() - i,
    {
        let key = mods[i].entity_key();
        let operation = match &mods[i] {
            EntityModification::Remove { .. } => EntityChangeOperation::Removed,
            _ => EntityChangeOperation::Written,
        };
        out.push(
            EntityChange {
                subgraph_id: key.subgraph_id.clone(),
                entity_type: key.entity_type.clone(),
                entity_id: key.entity_id.clone(),
                operation,
            },
        );
        i = i + 1;
    }
    out
}

fn collect_operation_changes(operations: &Vec<MetadataOperation>) -> (r: Vec<EntityChange>)
    ensures
        changes_view(r@) == operation_changes(operations@),
{
    let mut out: Vec<EntityChange> = Vec::new();
    let mut i: usize = 0;
    while i < operations.len()
        invariant
            i <= operations@.len(),
            out@.len() == i,
            forall|j: int|
                0 <= j < i ==> (#[trigger] out@[j])@ == operation_change(operations@[j]),
        decreases operations.len() - i,
    {
        let op = &operations[i];
        let operation = match op {
            MetadataOperation::Remove { .. } => EntityChangeOperation::Removed,
            _ => EntityChangeOperation::Written,
        };
        out.push(
            EntityChange {
                subgraph_id: op.deployment().clone(),
                entity_type: op.entity().to_string(),
                entity_id: op.id().clone(),
                operation,
            },
        );
        i = i + 1;
    }
    assert(changes_view(out@) =~= operation_changes(operations@));
    out
}

/// A store that multiplexes operations on subgraphs and deployments
/// between the primary and any number of shards.
#[derive(Debug, PartialEq, Eq)]
pub struct ShardedStore {
    primary: Primary,
    stores: Vec<Shard>,
    bus: ChangeEventBus,
}

impl View for ShardedStore {
    type V = ShardedStoreView;

    closed spec fn view(&self) -> ShardedStoreView {
        ShardedStoreView { primary: self.primary@, shards: shards_view(self.stores@), bus: self.bus@ }
    }
}

fn find_shard(stores: &Vec<Shard>, name: &str) -> (r: Option<usize>)
    ensures
        match r {
            Some(k) => k < stores@.len() && is_first(
                shards_view(stores@),
                shard_named(name@),
                k as int,
            ) && first_where(shards_view(stores@), shard_named(name@)) == Some(k as int),
            None => first_where(shards_view(stores@), shard_named(name@)) is None && !any_row(
                shards_view(stores@),
                shard_named(name@),
            ),
        },
{
    let ghost p = shard_named(name@);
    let key = name.to_owned();
    let mut i: usize = 0;
    while i < stores.len()
        invariant
            i <= stores@.len(),
            key@ == name@,
            p == shard_named(name@),
            forall|j: int| 0 <= j < i ==> !p(#[trigger] shards_view(stores@)[j]),
        decreases stores.len() - i,
    {
        if stores[i].name == key {
            proof {
                lemma_first_found(shards_view(stores@), p, i as int);
            }
            return Some(i);
        }
        i = i + 1;
    }
    proof {
        lemma_first_absent(shards_view(stores@), p);
    }
    None
}

/// Decides whether `stores` can make up a store: no two shards have the
/// same name, and one of them is the primary shard.
pub fn shards_are_valid(stores: &Vec<Shard>) -> (r: bool)
    ensures
        r == valid_shards(shards_view(stores@)),
{
    let ghost shards = shards_view(stores@);
    let mut i: usize = 0;
    while i < stores.len()
        invariant
            i <= stores@.len(),
            shards == shards_view(stores@),
            forall|a: int, b: int|
                0 <= a < i && 0 <= b < shards.len() && a != b ==> (#[trigger] shards[a]).name != (
                #[trigger] shards[b]).name,
        decreases stores.len() - i,
    {
        let mut j: usize = 0;
        while j < stores.len()
            invariant
                i < stores@.len(),
                j <= stores@.len(),
                shards == shards_view(stores@),
                forall|b: int| 0 <= b < j && b != i ==> shards[i as int].name != (
                #[trigger] shards[b]).name,
            decreases stores.len() - j,
        {
            if j != i && stores[i].name == stores[j].name {
                assert(shards[i as int].name == shards[j as int].name);
                return false;
            }
            j = j + 1;
        }
        i = i + 1;
    }
    find_shard(stores, PRIMARY_SHARD).is_some()
}

impl ShardedStore {
    /// A store over the given shards, with no subgraph and no deployment
    /// known to the primary, and with a bus that records nothing.
    pub fn new(stores: Vec<Shard>) -> (r: ShardedStore)
        requires
            valid_shards(shards_view(stores@)),
        ensures
            r@ == (ShardedStoreView {
                primary: PrimaryView {
                    subgraphs: Seq::empty(),
                    assignments: Seq::empty(),
                    sites: Seq::empty(),
                },
                shards: shards_view(stores@),
                bus: BusView { channel: Seq::empty(), tap: None },
            }),
            r@.valid(),
    {
        ShardedStore { primary: Primary::new(), stores, bus: ChangeEventBus::new(EventTap::Disabled) }
    }

    /// A store over the given shards, with the given metadata of the
    /// primary and a bus with the given recorder.
    pub fn restore(primary: Primary, stores: Vec<Shard>, tap: EventTap) -> (r: ShardedStore)
        requires
            valid_shards(shards_view(stores@)),
        ensures
            r@ == (ShardedStoreView {
                primary: primary@,
                shards: shards_view(stores@),
                bus: BusView { channel: Seq::empty(), tap: tap.log() },
            }),
            r@.valid(),
    {
        ShardedStore { primary, stores, bus: ChangeEventBus::new(tap) }
    }

    /// The number of shards.
    pub fn shard_count(&self) -> (r: usize)
        ensures
            r == self@.shards.len(),
    {
        self.stores.len()
    }

    /// The metadata that only the primary shard keeps.
    pub fn primary(&self) -> (r: &Primary)
        ensures
            r@ == self@.primary,
    {
        &self.primary
    }

    /// The tables of the shard with the name `name`.
    pub fn shard_store(&self, name: &str) -> (r: Option<&Store>)
        ensures
            match self@.shard_index(name@) {
                Some(k) => r is Some && r->0@ == self@.shards[k].store,
                None => r is None,
            },
    {
        match find_shard(&self.stores, name) {
            Some(k) => Some(&self.stores[k].store),
            None => None,
        }
    }

    /// The bus on which the store publishes its events.
    pub fn bus(&self) -> (r: &ChangeEventBus)
        ensures
            r@ == self@.bus,
    {
        &self.bus
    }

    /// The shard in which the primary has placed the deployment `id`; not
    /// found where it has recorded no placement.
    pub fn shard(&self, id: &SubgraphDeploymentId) -> (r: Result<String, StoreError>)
        ensures
            match self@.primary.site(id@) {
                Some(site) => r is Ok && r->Ok_0@ == site.shard,
                None => r is Err && r->Err_0.spec_kind() == ErrorKind::NotFound
                    && r->Err_0.spec_message() == id@,
            },
    {
        self.primary.shard(id)
    }

    fn store_position(&self, id: &SubgraphDeploymentId) -> (r: Result<usize, StoreError>)
        ensures
            match self@.store_index(id@) {
                Ok(k) => r is Ok && r->Ok_0 as int == k && 0 <= k < self.stores@.len(),
                Err(e) => r is Err && r->Err_0.spec_kind() == e && r->Err_0.spec_message()
                    == self@.placement_message(id@),
            },
    {
        let shard = match self.primary.shard(id) {
            Ok(shard) => shard,
            Err(e) => {
                return Err(e);
            },
        };
        match find_shard(&self.stores, shard.as_str()) {
            Some(k) => Ok(k),
            None => Err(StoreError::UnknownShard(shard)),
        }
    }

    /// The shard that holds the data of the deployment `id`: the one
    /// source of truth for where a deployment lies. The deployment is not
    /// found where the primary has recorded no placement for it, and its
    /// shard is unknown where the store has no shard of the recorded name.
    pub fn shard_of(&self, id: &SubgraphDeploymentId) -> (r: Result<String, StoreError>)
        ensures
            yields(r, self@.shard_of(id@)),
            r matches Err(e) ==> e.spec_message() == self@.placement_message(id@),
    {
        match self.store_position(id) {
            Ok(k) => Ok(self.stores[k].name.clone()),
            Err(e) => Err(e),
        }
    }

    /// The tables of the shard that holds the data of the deployment `id`.
    pub fn store(&self, id: &SubgraphDeploymentId) -> (r: Result<&Store, StoreError>)
        ensures
            match self@.store_index(id@) {
                Ok(k) => r is Ok && r->Ok_0@ == self@.shards[k].store,
                Err(e) => r is Err && r->Err_0.spec_kind() == e && r->Err_0.spec_message()
                    == self@.placement_message(id@),
            },
    {
        match self.store_position(id) {
            Ok(k) => Ok(&self.stores[k].store),
            Err(e) => Err(e),
        }
    }

    /// A copy of what the recorder of the bus has logged; empty where it
    /// records nothing.
    pub fn tapped_events(&self) -> (r: Vec<StoreEvent>)
        ensures
            crate::event::events_view(r@) == match self@.bus.tap {
                Some(log) => log,
                None => Seq::empty(),
            },
    {
        self.bus.tapped()
    }

    /// Empties the log of the recorder of the bus.
    pub fn clear_tapped_events(&mut self)
        ensures
            final(self)@ == (ShardedStoreView {
                bus: BusView {
                    tap: match old(self)@.bus.tap {
                        Some(_) => Some(Seq::empty()),
                        None => None,
                    },
                    ..old(self)@.bus
                },
                ..old(self)@
            }),
            old(self)@.valid() ==> final(self)@.valid(),
    {
        self.bus.clear_tap();
    }

    /// Takes the published events out of the notification channel, oldest
    /// first, for the transport to deliver.
    pub fn drain_events(&mut self) -> (r: Vec<StoreEvent>)
        ensures
            crate::event::events_view(r@) == old(self)@.bus.channel,
            final(self)@ == (ShardedStoreView {
                bus: BusView { channel: Seq::empty(), ..old(self)@.bus },
                ..old(self)@
            }),
            old(self)@.valid() ==> final(self)@.valid(),
    {
        self.bus.drain()
    }

    /// Publishes `event` on the bus of the store.
    pub fn send_store_event(&mut self, event: &StoreEvent) -> (r: Result<(), StoreError>)
        ensures
            r is Ok,
            final(self)@ == old(self)@.published(event@),
            old(self)@.valid() ==> final(self)@.valid(),
    {
        self.bus.publish(event);
        Ok(())
    }
}

impl ShardedStore {
    /// Deploys `deployment` under the name `name`, with its data in the
    /// shard `shard`, which the store must have, or in the shard in which
    /// the primary has placed the deployment before. `replace` asks to
    /// write the records of the deployment again where the shard has them
    /// already.
    pub fn create_deployment_internal(
        &mut self,
        name: SubgraphName,
        shard: String,
        schema: &Schema,
        deployment: SubgraphDeploymentEntity,
        node_id: NodeId,
        mode: SubgraphVersionSwitchingMode,
        replace: bool,
    ) -> (r: Result<(), StoreError>)
        ensures
            outcome_is(
                r,
                old(self)@.create_deployment(
                    name@,
                    shard@,
                    schema.id@,
                    deployment@,
                    node_id@,
                    mode,
                    replace,
                ).0,
            ),
            r matches Err(e) ==> e.spec_message() == old(self)@.create_message(
                name@,
                shard@,
                schema.id@,
            ),
            final(self)@ == old(self)@.create_deployment(
                name@,
                shard@,
                schema.id@,
                deployment@,
                node_id@,
                mode,
                replace,
            ).1,
            old(self)@.valid() ==> final(self)@.valid(),
    {
        if find_shard(&self.stores, shard.as_str()).is_none() {
            return Err(StoreError::UnknownShard(shard));
        }
        let target = match self.primary.shard(&schema.id) {
            Ok(placed) => placed,
            Err(_) => shard,
        };
        let k = match find_shard(&self.stores, target.as_str()) {
            Some(k) => k,
            None => {
                return Err(StoreError::UnknownShard(target));
            },
        };
        let mut event = create_deployment(&mut self.stores[k].store, &schema.id, &deployment, replace);
        proof {
            lemma_store_changed(old(self).stores@, self.stores@, k as int);
        }
        let synced = match self.primary.current_deployment(&name) {
            None => false,
            Some(current) => {
                let j = match self.store_position(&current) {
                    Ok(j) => j,
                    Err(e) => {
                        return Err(e);
                    },
                };
                match exists_and_synced(&self.stores[j].store, current.as_str()) {
                    Ok(synced) => synced,
                    Err(e) => {
                        return Err(e);
                    },
                }
            },
        };
        self.primary.place_deployment(&schema.id, target.as_str());
        let changes = self.primary.create_subgraph_version(name, &schema.id, node_id, mode, synced);
        event.extend(changes);
        self.bus.publish(&event);
        Ok(())
    }

    /// Deploys `deployment` under the name `name` in the primary shard, and
    /// writes the records of the deployment again where the shard has them
    /// already, so that a deployment can be reset by creating it anew.
    pub fn create_deployment_replace(
        &mut self,
        name: SubgraphName,
        schema: &Schema,
        deployment: SubgraphDeploymentEntity,
        node_id: NodeId,
        mode: SubgraphVersionSwitchingMode,
    ) -> (r: Result<(), StoreError>)
        ensures
            outcome_is(
                r,
                old(self)@.create_deployment(
                    name@,
                    primary_shard(),
                    schema.id@,
                    deployment@,
                    node_id@,
                    mode,
                    true,
                ).0,
            ),
            r matches Err(e) ==> e.spec_message() == old(self)@.create_message(
                name@,
                primary_shard(),
                schema.id@,
            ),
            final(self)@ == old(self)@.create_deployment(
                name@,
                primary_shard(),
                schema.id@,
                deployment@,
                node_id@,
                mode,
                true,
            ).1,
            old(self)@.valid() ==> final(self)@.valid(),
    {
        self.create_deployment_internal(
            name,
            PRIMARY_SHARD.to_owned(),
            schema,
            deployment,
            node_id,
            mode,
            true,
        )
    }

    /// Deploys `deployment` under the name `name` in the primary shard. A
    /// deployment of which the shard has a record already is left as it
    /// is.
    pub fn create_subgraph_deployment(
        &mut self,
        name: SubgraphName,
        schema: &Schema,
        deployment: SubgraphDeploymentEntity,
        node_id: NodeId,
        _network: String,
        mode: SubgraphVersionSwitchingMode,
    ) -> (r: Result<(), StoreError>)
        ensures
            outcome_is(
                r,
                old(self)@.create_deployment(
                    name@,
                    primary_shard(),
                    schema.id@,
                    deployment@,
                    node_id@,
                    mode,
                    false,
                ).0,
            ),
            r matches Err(e) ==> e.spec_message() == old(self)@.create_message(
                name@,
                primary_shard(),
                schema.id@,
            ),
            final(self)@ == old(self)@.create_deployment(
                name@,
                primary_shard(),
                schema.id@,
                deployment@,
                node_id@,
                mode,
                false,
            ).1,
            old(self)@.valid() ==> final(self)@.valid(),
    {
        self.create_deployment_internal(
            name,
            PRIMARY_SHARD.to_owned(),
            schema,
            deployment,
            node_id,
            mode,
            false,
        )
    }

    /// Marks the deployment `id` as synced: the primary makes it the
    /// current deployment wherever it is pending, its shard marks its
    /// record, and the changes of the primary are published.
    pub fn deployment_synced(&mut self, id: &SubgraphDeploymentId) -> (r: Result<(), StoreError>)
        ensures
            outcome_is(r, old(self)@.mark_synced(id@).0),
            r matches Err(e) ==> e.spec_message() == old(self)@.placement_message(id@),
            final(self)@ == old(self)@.mark_synced(id@).1,
            old(self)@.valid() ==> final(self)@.valid(),
    {
        let k = match self.store_position(id) {
            Ok(k) => k,
            Err(e) => {
                return Err(e);
            },
        };
        let changes = self.primary.promote_deployment(id);
        let event = StoreEvent::new(changes);
        let _ = set_synced(&mut self.stores[k].store, id);
        proof {
            lemma_store_changed(old(self).stores@, self.stores@, k as int);
        }
        self.bus.publish(&event);
        Ok(())
    }

    /// Assigns the deployment `id` to `node_id` and publishes the change,
    /// also where the deployment was assigned to that node before. The
    /// deployment is not found where it has no assignment.
    pub fn reassign_subgraph(&mut self, id: &SubgraphDeploymentId, node_id: &NodeId) -> (r: Result<
        (),
        StoreError,
    >)
        ensures
            outcome_is(r, old(self)@.reassign(id@, node_id@).0),
            r matches Err(e) ==> e.spec_message() == id@,
            final(self)@ == old(self)@.reassign(id@, node_id@).1,
            old(self)@.valid() ==> final(self)@.valid(),
    {
        let changes = match self.primary.reassign_subgraph(id, node_id) {
            Ok(changes) => changes,
            Err(e) => {
                return Err(e);
            },
        };
        let event = StoreEvent::new(changes);
        self.bus.publish(&event);
        Ok(())
    }

    /// Makes sure that the subgraph `name` exists and returns its id.
    /// Nothing is published.
    pub fn create_subgraph(&mut self, name: SubgraphName) -> (r: Result<String, StoreError>)
        ensures
            r is Ok,
            r->Ok_0@ == name@,
            final(self)@ == old(self)@.with_primary(old(self)@.primary.with_subgraph(name@)),
            old(self)@.valid() ==> final(self)@.valid(),
    {
        Ok(self.primary.create_subgraph(&name))
    }

    /// Removes the subgraph `name` and publishes the changes to
    /// assignments.
    pub fn remove_subgraph(&mut self, name: SubgraphName) -> (r: Result<(), StoreError>)
        ensures
            r is Ok,
            final(self)@ == old(self)@.remove_subgraph(name@),
            old(self)@.valid() ==> final(self)@.valid(),
    {
        let changes = self.primary.remove_subgraph(name);
        let event = StoreEvent::new(changes);
        self.bus.publish(&event);
        Ok(())
    }

    /// The node to which the deployment `id` is assigned.
    pub fn assigned_node(&self, id: &SubgraphDeploymentId) -> (r: Result<Option<NodeId>, StoreError>)
        ensures
            r is Ok,
            match self@.primary.assignment(id@) {
                Some(a) => r->Ok_0 is Some && r->Ok_0->0@ == a.node_id,
                None => r->Ok_0 is None,
            },
    {
        Ok(self.primary.assigned_node(id))
    }

    /// The state of the deployment `id`.
    pub fn deployment_state_from_id(&self, id: SubgraphDeploymentId) -> (r: Result<
        DeploymentState,
        StoreError,
    >)
        ensures
            yields(r, self@.state_of(id@)),
            r matches Err(e) ==> e.spec_message() == self@.state_message(id@),
    {
        match self.store_position(&id) {
            Ok(k) => state(&self.stores[k].store, id),
            Err(e) => Err(e),
        }
    }

    /// The state of the current deployment of the subgraph `name`.
    pub fn deployment_state_from_name(&self, name: SubgraphName) -> (r: Result<
        DeploymentState,
        StoreError,
    >)
        ensures
            yields(r, self@.state_of_name(name@)),
            r matches Err(e) ==> e.spec_message() == self@.state_of_name_message(name@),
    {
        match self.primary.current_deployment_for_subgraph(&name) {
            Ok(id) => self.deployment_state_from_id(id),
            Err(e) => Err(e),
        }
    }

    /// A store for queries against the deployment `id`, which reads the
    /// shard that holds the data of the deployment. Queries are answered
    /// for concrete deployments only, not for the metadata deployment.
    pub fn query_store<'a>(&'a self, id: &SubgraphDeploymentId, for_subscription: bool) -> (r:
        Result<QueryStore<'a>, StoreError>)
        requires
            id@ != meta_id(),
        ensures
            match self@.store_index(id@) {
                Ok(k) => {
                    &&& r is Ok
                    &&& r->Ok_0.deployment() == id@
                    &&& r->Ok_0.tables()@ == self@.shards[k].store
                    &&& r->Ok_0.subscribable() == for_subscription
                },
                Err(e) => r is Err && r->Err_0.spec_kind() == e && r->Err_0.spec_message()
                    == self@.placement_message(id@),
            },
    {
        let k = match self.store_position(id) {
            Ok(k) => k,
            Err(e) => {
                return Err(e);
            },
        };
        let site = SiteRecord { deployment: id.clone(), shard: self.stores[k].name.clone() };
        Ok(QueryStore::new(&self.stores[k].store, for_subscription, site, ReplicaId::Main))
    }

    /// Clears the failure of the deployment `id` in the shard that holds
    /// its data.
    pub fn unfail_deployment(&mut self, id: &SubgraphDeploymentId) -> (r: Result<(), StoreError>)
        ensures
            outcome_is(r, old(self)@.unfail(id@).0),
            r matches Err(e) ==> e.spec_message() == old(self)@.placement_message(id@),
            final(self)@ == old(self)@.unfail(id@).1,
            old(self)@.valid() ==> final(self)@.valid(),
    {
        let k = match self.store_position(id) {
            Ok(k) => k,
            Err(e) => {
                return Err(e);
            },
        };
        let _ = unfail(&mut self.stores[k].store, id);
        proof {
            lemma_store_changed(old(self).stores@, self.stores@, k as int);
        }
        Ok(())
    }

    /// Processes a block for the deployment `id`: checks that the writes
    /// of the block do not straddle shards, advances the block pointer of
    /// the deployment to `block_ptr_to`, and publishes the changes. To
    /// write the entities themselves is left to the storage of the shard.
    pub fn transact_block_operations(
        &mut self,
        id: SubgraphDeploymentId,
        block_ptr_to: EthereumBlockPointer,
        mods: Vec<EntityModification>,
    ) -> (r: Result<(), StoreError>)
        ensures
            outcome_is(r, old(self)@.transact(id@, block_ptr_to@, mods@).0),
            r matches Err(e) ==> e.spec_message() == old(self)@.batch_message(id@, mods@),
            final(self)@ == old(self)@.transact(id@, block_ptr_to@, mods@).1,
            old(self)@.valid() ==> final(self)@.valid(),
    {
        match require_single_shard(&mods, &id) {
            Ok(_) => {},
            Err(e) => {
                return Err(e);
            },
        }
        let k = match self.store_position(&id) {
            Ok(k) => k,
            Err(e) => {
                return Err(e);
            },
        };
        let mut event = StoreEvent::new(collect_modification_changes(&mods));
        let metadata_event = match forward_block_ptr(&mut self.stores[k].store, &id, block_ptr_to) {
            Ok(event) => event,
            Err(e) => {
                return Err(e);
            },
        };
        proof {
            lemma_store_changed(old(self).stores@, self.stores@, k as int);
        }
        event.extend(metadata_event.changes);
        self.bus.publish(&event);
        Ok(())
    }

    /// Announces a batch of writes to the metadata of the deployment
    /// `target_deployment`: checks that the batch does not straddle shards,
    /// finds the shard of the deployment, and publishes the changes. To
    /// write the entities themselves is left to the storage of the shard.
    pub fn apply_metadata_operations(
        &mut self,
        target_deployment: &SubgraphDeploymentId,
        operations: Vec<MetadataOperation>,
    ) -> (r: Result<(), StoreError>)
        ensures
            outcome_is(r, old(self)@.apply(target_deployment@, operations@).0),
            r matches Err(e) ==> e.spec_message() == old(self)@.batch_message(
                target_deployment@,
                operations@,
            ),
            final(self)@ == old(self)@.apply(target_deployment@, operations@).1,
            old(self)@.valid() ==> final(self)@.valid(),
    {
        match require_single_shard(&operations, target_deployment) {
            Ok(_) => {},
            Err(e) => {
                return Err(e);
            },
        }
        match self.store_position(target_deployment) {
            Ok(_) => {},
            Err(e) => {
                return Err(e);
            },
        }
        let event = StoreEvent::new(collect_operation_changes(&operations));
        self.bus.publish(&event);
        Ok(())
    }

    /// Reverts the block pointer of the deployment `id` to `block_ptr_to`
    /// after a reorganization of the chain, and publishes the change.
    pub fn revert_block_operations(
        &mut self,
        id: SubgraphDeploymentId,
        block_ptr_to: EthereumBlockPointer,
    ) -> (r: Result<(), StoreError>)
        ensures
            outcome_is(r, old(self)@.revert(id@, block_ptr_to@).0),
            r matches Err(e) ==> e.spec_message() == old(self)@.revert_message(id@),
            final(self)@ == old(self)@.revert(id@, block_ptr_to@).1,
            old(self)@.valid() ==> final(self)@.valid(),
    {
        let k = match self.store_position(&id) {
            Ok(k) => k,
            Err(e) => {
                return Err(e);
            },
        };
        let event = match revert_block_ptr(&mut self.stores[k].store, &id, block_ptr_to) {
            Ok(event) => event,
            Err(e) => {
                proof {
                    lemma_store_changed(old(self).stores@, self.stores@, k as int);
                    assert(self@.shards =~= old(self)@.shards);
                }
                return Err(e);
            },
        };
        proof {
            lemma_store_changed(old(self).stores@, self.stores@, k as int);
        }
        self.bus.publish(&event);
        Ok(())
    }
}

/// Where only the tables of the shard `k` changed, the shards are the old
/// ones but for those tables, and they are valid if they were.
proof fn lemma_store_changed(before: Seq<Shard>, after: Seq<Shard>, k: int)
    requires
        0 <= k < before.len(),
        after.len() == before.len(),
        after[k].name == before[k].name,
        forall|j: int| 0 <= j < before.len() && j != k ==> after[j] == before[j],
    ensures
        shards_view(after) == shards_view(before).update(
            k,
            ShardView { store: after[k].store@, ..shards_view(before)[k] },
        ),
        valid_shards(shards_view(before)) ==> valid_shards(shards_view(after)),
{
    let old_view = shards_view(before);
    let new_view = shards_view(after);
    assert forall|j: int| 0 <= j < new_view.len() implies (#[trigger] new_view[j]).name
        == old_view[j].name by {}
    if valid_shards(old_view) {
        let p = shard_named(primary_shard());
        let i = choose|i: int| 0 <= i < old_view.len() && p(#[trigger] old_view[i]);
        assert(p(new_view[i]));
    }
}

/// Of the deployments `deployments`, those that the primary can place, and
/// the shard of each.
fn place(primary: &Primary, deployments: &Vec<String>) -> (r: (Vec<String>, Vec<String>))
    ensures
        texts(r.0@) == select_where(texts(deployments@), placeable(primary@)),
        r.1@.len() == r.0@.len(),
        forall|j: int|
            0 <= j < r.0@.len() ==> (#[trigger] r.1@[j])@ == shard_name(primary@, r.0@[j]@),
{
    let ghost all = texts(deployments@);
    let ghost p = placeable(primary@);
    let mut ids: Vec<String> = Vec::new();
    let mut shards: Vec<String> = Vec::new();
    let mut i: usize = 0;
    proof {
        lemma_empty_table(p);
    }
    while i < deployments.len()
        invariant
            i <= deployments@.len(),
            all == texts(deployments@),
            p == placeable(primary@),
            texts(ids@) == select_where(all.take(i as int), p),
            shards@.len() == ids@.len(),
            forall|j: int|
                0 <= j < ids@.len() ==> (#[trigger] shards@[j])@ == shard_name(
                    primary@,
                    ids@[j]@,
                ),
        decreases deployments.len() - i,
    {
        proof {
            assert(all.take(i + 1) =~= all.take(i as int).push(all[i as int]));
            lemma_select_where_push(all.take(i as int), p, all[i as int]);
        }
        match SubgraphDeploymentId::new(deployments[i].as_str()) {
            Ok(id) => {
                match primary.find_site(&id) {
                    Some(k) => {
                        ids.push(deployments[i].clone());
                        shards.push(primary.sites[k].shard.clone());
                    },
                    None => {},
                }
            },
            Err(_) => {},
        }
        i = i + 1;
    }
    assert(all.take(deployments@.len() as int) =~= all);
    (ids, shards)
}

/// The shards of the placed deployments `ids`, each once, in the order in
/// which they first occur.
fn group(Ghost(primary): Ghost<PrimaryView>, ids: &Vec<String>, shards: &Vec<String>) -> (r: Vec<
    String,
>)
    requires
        shards@.len() == ids@.len(),
        forall|j: int|
            0 <= j < ids@.len() ==> (#[trigger] shards@[j])@ == shard_name(primary, ids@[j]@),
    ensures
        texts(r@) == shards_of(primary, texts(ids@)),
{
    let ghost all = texts(ids@);
    let mut groups: Vec<String> = Vec::new();
    let mut i: usize = 0;
    while i < shards.len()
        invariant
            i <= shards@.len(),
            shards@.len() == ids@.len(),
            all == texts(ids@),
            forall|j: int|
                0 <= j < ids@.len() ==> (#[trigger] shards@[j])@ == shard_name(primary, ids@[j]@),
            texts(groups@) == shards_of(primary, all.take(i as int)),
        decreases shards.len() - i,
    {
        proof {
            assert(all.take(i + 1).drop_last() =~= all.take(i as int));
        }
        if !contains_text(&groups, &shards[i]) {
            groups.push(shards[i].clone());
        }
        i = i + 1;
    }
    assert(all.take(shards@.len() as int) =~= all);
    groups
}

/// Of the placed deployments `ids`, those whose shard is `shard`.
fn ids_in_shard(
    Ghost(primary): Ghost<PrimaryView>,
    ids: &Vec<String>,
    shards: &Vec<String>,
    shard: &String,
) -> (r: Vec<String>)
    requires
        shards@.len() == ids@.len(),
        forall|j: int|
            0 <= j < ids@.len() ==> (#[trigger] shards@[j])@ == shard_name(primary, ids@[j]@),
    ensures
        texts(r@) == select_where(texts(ids@), placed_in(primary, shard@)),
{
    let ghost all = texts(ids@);
    let ghost p = placed_in(primary, shard@);
    let mut out: Vec<String> = Vec::new();
    let mut i: usize = 0;
    proof {
        lemma_empty_table(p);
    }
    while i < ids.len()
        invariant
            i <= ids@.len(),
            shards@.len() == ids@.len(),
            all == texts(ids@),
            p == placed_in(primary, shard@),
            forall|j: int|
                0 <= j < ids@.len() ==> (#[trigger] shards@[j])@ == shard_name(primary, ids@[j]@),
            texts(out@) == select_where(all.take(i as int), p),
        decreases ids.len() - i,
    {
        proof {
            assert(all.take(i + 1) =~= all.take(i as int).push(all[i as int]));
            lemma_select_where_push(all.take(i as int), p, all[i as int]);
        }
        if shards[i] == *shard {
            out.push(ids[i].clone());
        }
        i = i + 1;
    }
    assert(all.take(ids@.len() as int) =~= all);
    out
}

impl ShardedStore {
    fn requested_deployments(&self, filter: &Filter) -> (r: Vec<String>)
        ensures
            texts(r@) == requested(self@.primary, filter@),
    {
        match filter {
            Filter::SubgraphName(name) => self.primary.deployments_for_subgraph(name.as_str()),
            Filter::SubgraphVersion(name, use_current) => {
                let mut out: Vec<String> = Vec::new();
                match self.primary.subgraph_version(name.as_str(), *use_current) {
                    Some(id) => {
                        out.push(id);
                    },
                    None => {},
                }
                out
            },
            Filter::Deployments(ids) => clone_texts(ids),
        }
    }

    /// Reports on the deployments that `filter` asks for. Deployments with
    /// a malformed id, and deployments that the primary has not placed, are
    /// passed over; the report fails only where a deployment is placed in
    /// a shard that the store does not have.
    pub fn status(&self, filter: Filter) -> (r: Result<Vec<Info>, StoreError>)
        ensures
            match self@.status(filter@) {
                Ok(infos) => r is Ok && infos_view(r->Ok_0@) == infos,
                Err(k) => r is Err && r->Err_0.spec_kind() == k && r->Err_0.spec_message()
                    == self@.status_message(filter@),
            },
    {
        let deployments = self.requested_deployments(&filter);
        let (ids, shards) = place(&self.primary, &deployments);
        let groups = group(Ghost(self@.primary), &ids, &shards);
        let ghost wanted = texts(ids@);
        let ghost names = texts(groups@);
        let mut infos: Vec<Info> = Vec::new();
        let mut g: usize = 0;
        while g < groups.len()
            invariant
                g <= groups@.len(),
                wanted == texts(ids@),
                wanted == select_where(
                    requested(self@.primary, filter@),
                    placeable(self@.primary),
                ),
                names == texts(groups@),
                names == shards_of(self@.primary, wanted),
                shards@.len() == ids@.len(),
                forall|j: int|
                    0 <= j < ids@.len() ==> (#[trigger] shards@[j])@ == shard_name(
                        self@.primary,
                        ids@[j]@,
                    ),
                forall|j: int| 0 <= j < g ==> self@.shard_index(#[trigger] names[j]) is Some,
                infos_view(infos@) == self@.collect(names.take(g as int), wanted),
            decreases groups.len() - g,
        {
            let k = match find_shard(&self.stores, groups[g].as_str()) {
                Some(k) => k,
                None => {
                    proof {
                        let missing = self@.shard_missing();
                        assert(missing(names[g as int]));
                        assert forall|j: int| 0 <= j < g implies !missing(#[trigger] names[j]) by {
                            assert(self@.shard_index(names[j]) is Some);
                        }
                        lemma_first_found(names, missing, g as int);
                    }
                    return Err(StoreError::UnknownShard(groups[g].clone()));
                },
            };
            let members = ids_in_shard(Ghost(self@.primary), &ids, &shards, &groups[g]);
            let mut part = deployment_statuses(&self.stores[k].store, &members);
            proof {
                assert(names.take(g + 1).drop_last() =~= names.take(g as int));
            }
            infos.append(&mut part);
            g = g + 1;
        }
        assert(names.take(groups@.len() as int) =~= names);
        Ok(infos)
    }
}

} // verus!
