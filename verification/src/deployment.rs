//! The life of a deployment in the shard that holds its data: the block
//! pointer advances and is reverted, the deployment fails and recovers,
//! finishes syncing, and may start from the data of another deployment.

use crate::block::{
    BlockHash, BlockNumber, BlockPointerView, EthereumBlockPointer, BLOCK_HASH_LEN,
    MAX_BLOCK_NUMBER,
};
use crate::error::{same_outcome, yields, ErrorKind, StoreError};
use crate::event::{EntityChange, EntityChangeOperation, EntityChangeView, StoreEvent};
use crate::ids::{meta_id, valid_deployment_id, SubgraphDeploymentId};
use crate::metadata::MetadataType;
use crate::records::{
    clone_text, deployment_is, deployments_view, errors_view, text, DeploymentRecord,
    DeploymentView, ErrorRecord, ErrorView, Store, StoreView,
};
use crate::table::{any_row, first_row, lemma_first_absent, update_where};
use crate::text::{concat3, signed_decimal, signed_decimal_string};
use vstd::prelude::*;
use vstd::string::*;

verus! {

pub use crate::records::SubgraphHealth;

/// A record after the block pointer advanced to `ptr`: the pointer is the
/// latest block and the current reorganization depth is back at zero.
pub open spec fn advanced(row: DeploymentView, ptr: BlockPointerView) -> DeploymentView {
    DeploymentView {
        latest_block_hash: Some(ptr.hash),
        latest_block_number: Some(ptr.number),
        current_reorg_depth: 0,
        ..row
    }
}

/// A record after the block pointer was reverted to `ptr`: the pointer is
/// the latest block, one more reorganization is counted, the current depth
/// grows by one, and the largest depth follows it.
pub open spec fn reverted(row: DeploymentView, ptr: BlockPointerView) -> DeploymentView {
    DeploymentView {
        latest_block_hash: Some(ptr.hash),
        latest_block_number: Some(ptr.number),
        reorg_count: row.reorg_count + 1,
        current_reorg_depth: row.current_reorg_depth + 1,
        max_reorg_depth: if row.current_reorg_depth + 1 > row.max_reorg_depth {
            row.current_reorg_depth + 1
        } else {
            row.max_reorg_depth
        },
        ..row
    }
}

/// Whether the counters of a record leave room for one more revert.
pub open spec fn revertible(row: DeploymentView) -> bool {
    row.reorg_count < i64::MAX && row.current_reorg_depth < i64::MAX
}

/// The deployment records after the block pointer of `id` advanced to `ptr`.
pub open spec fn forward(rows: Seq<DeploymentView>, id: Seq<char>, ptr: BlockPointerView) -> Seq<
    DeploymentView,
> {
    update_where(rows, deployment_is(id), |r: DeploymentView| advanced(r, ptr))
}

/// The deployment records after the block pointer of `id` was reverted to
/// `ptr`.
pub open spec fn revert(rows: Seq<DeploymentView>, id: Seq<char>, ptr: BlockPointerView) -> Seq<
    DeploymentView,
> {
    update_where(rows, deployment_is(id), |r: DeploymentView| reverted(r, ptr))
}

/// Whether every record of `id` leaves room for one more revert.
pub open spec fn all_revertible(rows: Seq<DeploymentView>, id: Seq<char>) -> bool {
    forall|i: int| 0 <= i < rows.len() && (#[trigger] rows[i]).id == id ==> revertible(rows[i])
}

/// The deployment records after `id` finished syncing.
pub open spec fn mark_synced(rows: Seq<DeploymentView>, id: Seq<char>) -> Seq<DeploymentView> {
    update_where(
        rows,
        |r: DeploymentView| r.id == id && !r.synced,
        |r: DeploymentView| DeploymentView { synced: true, ..r },
    )
}

/// The event that announces a new block pointer of the deployment `id`: one
/// change, which says that the record of the deployment was written.
pub open spec fn block_ptr_event(id: Seq<char>) -> Seq<EntityChangeView> {
    seq![
        EntityChangeView {
            subgraph_id: meta_id(),
            entity_type: MetadataType::SubgraphDeployment.name(),
            entity_id: id,
            operation: EntityChangeOperation::Written,
        },
    ]
}

/// The event that announces a new block pointer of the deployment `id`.
pub fn block_ptr_store_event(id: &SubgraphDeploymentId) -> (r: StoreEvent)
    ensures
        r@ == block_ptr_event(id@),
{
    let change = EntityChange {
        subgraph_id: SubgraphDeploymentId::meta(),
        entity_type: MetadataType::SubgraphDeployment.to_string(),
        entity_id: id.to_string(),
        operation: EntityChangeOperation::Written,
    };
    let mut changes: Vec<EntityChange> = Vec::new();
    changes.push(change);
    StoreEvent::new(changes)
}

fn forward_rows(rows: &mut Vec<DeploymentRecord>, id: &SubgraphDeploymentId, ptr: EthereumBlockPointer)
    ensures
        deployments_view(final(rows)@) == forward(deployments_view(old(rows)@), id@, ptr@),
{
    let key = id.to_string();
    let n = rows.len();
    let mut i: usize = 0;
    while i < n
        invariant
            i <= n,
            n == rows@.len(),
            n == old(rows)@.len(),
            key@ == id@,
            forall|j: int|
                0 <= j < i ==> (#[trigger] rows@[j])@ == forward(
                    deployments_view(old(rows)@),
                    id@,
                    ptr@,
                )[j],
            forall|j: int| i <= j < n ==> rows@[j] == old(rows)@[j],
        decreases n - i,
    {
        if rows[i].id == key {
            rows[i].latest_ethereum_block_hash = Some(ptr.hash().to_vec());
            rows[i].latest_ethereum_block_number = Some(ptr.number() as i64);
            rows[i].current_reorg_depth = 0;
        }
        i = i + 1;
    }
}

/// Advances the block pointer of the deployment `id` to `ptr` and resets its
/// current reorganization depth. A shard that has no record of `id` is left
/// as it is. The call always succeeds.
pub fn forward_block_ptr(store: &mut Store, id: &SubgraphDeploymentId, ptr: EthereumBlockPointer) -> (r:
    Result<StoreEvent, StoreError>)
    ensures
        r is Ok,
        r->Ok_0@ == block_ptr_event(id@),
        final(store)@ == old(store)@.with_deployments(forward(old(store)@.deployments, id@, ptr@)),
{
    forward_rows(&mut store.deployments, id, ptr);
    Ok(block_ptr_store_event(id))
}

fn rows_revertible(rows: &Vec<DeploymentRecord>, id: &SubgraphDeploymentId) -> (r: bool)
    ensures
        r == all_revertible(deployments_view(rows@), id@),
{
    let key = id.to_string();
    let mut i: usize = 0;
    while i < rows.len()
        invariant
            i <= rows@.len(),
            key@ == id@,
            forall|j: int|
                0 <= j < i && (#[trigger] deployments_view(rows@)[j]).id == id@ ==> revertible(
                    deployments_view(rows@)[j],
                ),
        decreases rows.len() - i,
    {
        if rows[i].id == key && (rows[i].reorg_count == i64::MAX || rows[i].current_reorg_depth
            == i64::MAX) {
            assert(!revertible(deployments_view(rows@)[i as int]));
            return false;
        }
        i = i + 1;
    }
    true
}

fn revert_rows(rows: &mut Vec<DeploymentRecord>, id: &SubgraphDeploymentId, ptr: EthereumBlockPointer)
    requires
        all_revertible(deployments_view(old(rows)@), id@),
    ensures
        deployments_view(final(rows)@) == revert(deployments_view(old(rows)@), id@, ptr@),
{
    let key = id.to_string();
    let n = rows.len();
    let mut i: usize = 0;
    while i < n
        invariant
            i <= n,
            n == rows@.len(),
            n == old(rows)@.len(),
            key@ == id@,
            all_revertible(deployments_view(old(rows)@), id@),
            forall|j: int|
                0 <= j < i ==> (#[trigger] rows@[j])@ == revert(
                    deployments_view(old(rows)@),
                    id@,
                    ptr@,
                )[j],
            forall|j: int| i <= j < n ==> rows@[j] == old(rows)@[j],
        decreases n - i,
    {
        if rows[i].id == key {
            assert(revertible(deployments_view(old(rows)@)[i as int]));
            let depth = rows[i].current_reorg_depth + 1;
            rows[i].latest_ethereum_block_hash = Some(ptr.hash().to_vec());
            rows[i].latest_ethereum_block_number = Some(ptr.number() as i64);
            rows[i].reorg_count = rows[i].reorg_count + 1;
            rows[i].current_reorg_depth = depth;
            if depth > rows[i].max_reorg_depth {
                rows[i].max_reorg_depth = depth;
            }
        }
        i = i + 1;
    }
}

/// Reverts the block pointer of the deployment `id` to `ptr` after a
/// reorganization of the chain: one more reorganization is counted, the
/// current depth grows by one and the largest depth follows it. A shard that
/// has no record of `id` is left as it is. Where a counter of a record of
/// `id` is at the end of its range, the call fails with a constraint
/// violation and nothing changes.
pub fn revert_block_ptr(store: &mut Store, id: &SubgraphDeploymentId, ptr: EthereumBlockPointer) -> (r:
    Result<StoreEvent, StoreError>)
    ensures
        match r {
            Ok(event) => {
                &&& all_revertible(old(store)@.deployments, id@)
                &&& event@ == block_ptr_event(id@)
                &&& final(store)@ == old(store)@.with_deployments(
                    revert(old(store)@.deployments, id@, ptr@),
                )
            },
            Err(e) => {
                &&& !all_revertible(old(store)@.deployments, id@)
                &&& e.kind() == ErrorKind::ConstraintViolation
                &&& e.spec_message() == "a reorg counter of deployment `"@ + id@
                    + "` is out of range"@
                &&& final(store)@ == old(store)@
            },
        },
{
    if !rows_revertible(&store.deployments, id) {
        return Err(
            StoreError::ConstraintViolation(
                concat3("a reorg counter of deployment `", id.as_str(), "` is out of range"),
            ),
        );
    }
    revert_rows(&mut store.deployments, id, ptr);
    Ok(block_ptr_store_event(id))
}

/// A stored counter as the unsigned 32-bit number that readers get: a
/// constraint violation where the counter is missing, negative or too large.
pub open spec fn counter_value(number: Option<int>) -> Result<u32, ErrorKind> {
    match number {
        Some(n) if 0 <= n <= u32::MAX => Ok(n as u32),
        _ => Err(ErrorKind::ConstraintViolation),
    }
}

/// What is said of a stored counter that cannot be converted: that it is
/// missing, or which value it has, with the field and the deployment.
pub open spec fn counter_message(number: Option<int>, field: Seq<char>, subgraph: Seq<char>) -> Seq<
    char,
> {
    match number {
        None => "missing "@ + field + " for subgraph `"@ + subgraph + "`"@,
        Some(n) => "invalid value "@ + signed_decimal(n) + " for "@ + field + " in subgraph "@
            + subgraph,
    }
}

/// Converts the stored counter `number` of the field `field` of the
/// deployment `subgraph` to the unsigned 32-bit number that readers get.
/// The message of the error says that the counter is missing, or which
/// value it has.
pub fn convert_to_u32(number: Option<i64>, field: &str, subgraph: &str) -> (r: Result<u32, StoreError>)
    ensures
        same_outcome(r, counter_value(crate::records::number(number))),
        r matches Err(e) ==> e.spec_message() == counter_message(
            crate::records::number(number),
            field@,
            subgraph@,
        ),
{
    match number {
        None => {
            let mut message = concat3("missing ", field, " for subgraph `");
            message.append(subgraph);
            message.append("`");
            Err(StoreError::ConstraintViolation(message))
        },
        Some(n) => {
            if 0 <= n && n <= 4294967295 {
                Ok(n as u32)
            } else {
                let mut message = concat3("invalid value ", signed_decimal_string(n).as_str(), " for ");
                message.append(field);
                message.append(" in subgraph ");
                message.append(subgraph);
                Err(StoreError::ConstraintViolation(message))
            }
        },
    }
}

/// The stored number of the latest block as the block number that readers
/// get: the deployment is not yet syncing where no block is recorded, and
/// the record violates a constraint where the number does not fit a signed
/// 32-bit integer.
pub open spec fn latest_block_value(latest: Option<int>) -> Result<BlockNumber, ErrorKind> {
    match latest {
        None => Err(ErrorKind::NotYetSyncing),
        Some(n) => if i32::MIN <= n <= i32::MAX {
            Ok(n as i32)
        } else {
            Err(ErrorKind::ConstraintViolation)
        },
    }
}

/// What is said of a stored number of the latest block that cannot be
/// handed out: that the deployment has not started syncing, or which
/// number it is that fits no signed 32-bit integer.
pub open spec fn latest_block_message(latest: Option<int>, subgraph: Seq<char>) -> Seq<char> {
    match latest {
        None => "Subgraph `"@ + subgraph
            + "` has not started syncing yet. Wait for it to ingest a few blocks before querying it"@,
        Some(n) => "Subgraph `"@ + subgraph + "` has an invalid latest_ethereum_block_number `"@
            + signed_decimal(n) + "` that can not be represented as an i32"@,
    }
}

/// Converts the stored number `latest` of the latest block of the
/// deployment `subgraph` to the block number that readers get. The
/// message of the error says that the deployment has not started syncing,
/// or which number it is that cannot be represented.
pub fn latest_as_block_number(latest: Option<i64>, subgraph: &str) -> (r: Result<
    BlockNumber,
    StoreError,
>)
    ensures
        same_outcome(r, latest_block_value(crate::records::number(latest))),
        r matches Err(e) ==> e.spec_message() == latest_block_message(
            crate::records::number(latest),
            subgraph@,
        ),
{
    match latest {
        None => Err(
            StoreError::NotYetSyncing(
                concat3(
                    "Subgraph `",
                    subgraph,
                    "` has not started syncing yet. Wait for it to ingest a few blocks before querying it",
                ),
            ),
        ),
        Some(n) => {
            if -2147483648 <= n && n <= 2147483647 {
                Ok(n as i32)
            } else {
                let mut message = concat3(
                    "Subgraph `",
                    subgraph,
                    "` has an invalid latest_ethereum_block_number `",
                );
                message.append(signed_decimal_string(n).as_str());
                message.append("` that can not be represented as an i32");
                Err(StoreError::ConstraintViolation(message))
            }
        },
    }
}

/// What readers learn about the progress of a deployment.
#[derive(Debug, PartialEq, Eq)]
pub struct DeploymentState {
    pub id: SubgraphDeploymentId,
    /// How many times the block pointer was reverted.
    pub reorg_count: u32,
    /// The largest number of reverts in a row.
    pub max_reorg_depth: u32,
    /// The number of the latest block.
    pub latest_ethereum_block_number: BlockNumber,
}

/// The mathematical value of a deployment state.
pub struct DeploymentStateView {
    pub id: Seq<char>,
    pub reorg_count: int,
    pub max_reorg_depth: int,
    pub latest_ethereum_block_number: int,
}

impl View for DeploymentState {
    type V = DeploymentStateView;

    open spec fn view(&self) -> DeploymentStateView {
        DeploymentStateView {
            id: self.id@,
            reorg_count: self.reorg_count as int,
            max_reorg_depth: self.max_reorg_depth as int,
            latest_ethereum_block_number: self.latest_ethereum_block_number as int,
        }
    }
}

/// The state of the deployment `id` as the records `rows` give it. The
/// deployment is not found where no record is about it. The counters are
/// converted first, then the number of the latest block.
pub open spec fn state_of(rows: Seq<DeploymentView>, id: Seq<char>) -> Result<
    DeploymentStateView,
    ErrorKind,
> {
    match first_row(rows, deployment_is(id)) {
        None => Err(ErrorKind::NotFound),
        Some(row) => match (
            counter_value(Some(row.reorg_count)),
            counter_value(Some(row.max_reorg_depth)),
            latest_block_value(row.latest_block_number),
        ) {
            (Err(k), _, _) => Err(k),
            (Ok(_), Err(k), _) => Err(k),
            (Ok(_), Ok(_), Err(k)) => Err(k),
            (Ok(reorg_count), Ok(max_reorg_depth), Ok(latest)) => Ok(
                DeploymentStateView {
                    id,
                    reorg_count: reorg_count as int,
                    max_reorg_depth: max_reorg_depth as int,
                    latest_ethereum_block_number: latest as int,
                },
            ),
        },
    }
}

/// What is said where the state of the deployment `id` cannot be given:
/// that no data was found for it, or what is wrong with the first of its
/// stored numbers that cannot be handed out.
pub open spec fn state_message(rows: Seq<DeploymentView>, id: Seq<char>) -> Seq<char> {
    match first_row(rows, deployment_is(id)) {
        None => "No data found for subgraph "@ + id,
        Some(row) => if counter_value(Some(row.reorg_count)) is Err {
            counter_message(Some(row.reorg_count), "reorg_count"@, id)
        } else if counter_value(Some(row.max_reorg_depth)) is Err {
            counter_message(Some(row.max_reorg_depth), "max_reorg_depth"@, id)
        } else {
            latest_block_message(row.latest_block_number, id)
        },
    }
}

/// The state of the deployment `id`: how often its block pointer was
/// reverted, how deep the deepest reorganization went, and the number of
/// its latest block. The message of the error says that no data was found
/// for the deployment, or which stored number cannot be handed out.
pub fn state(store: &Store, id: SubgraphDeploymentId) -> (r: Result<DeploymentState, StoreError>)
    ensures
        yields(r, state_of(store@.deployments, id@)),
        r matches Err(e) ==> e.spec_message() == state_message(store@.deployments, id@),
{
    match store.find_deployment(id.as_str()) {
        None => {
            let mut message = "No data found for subgraph ".to_owned();
            message.append(id.as_str());
            Err(StoreError::NotFound(message))
        },
        Some(i) => {
            let row = &store.deployments[i];
            let reorg_count = match convert_to_u32(Some(row.reorg_count), "reorg_count", id.as_str()) {
                Ok(n) => n,
                Err(e) => {
                    return Err(e);
                },
            };
            let max_reorg_depth = match convert_to_u32(
                Some(row.max_reorg_depth),
                "max_reorg_depth",
                id.as_str(),
            ) {
                Ok(n) => n,
                Err(e) => {
                    return Err(e);
                },
            };
            let latest_ethereum_block_number = match latest_as_block_number(
                row.latest_ethereum_block_number,
                id.as_str(),
            ) {
                Ok(n) => n,
                Err(e) => {
                    return Err(e);
                },
            };
            Ok(DeploymentState { id, reorg_count, max_reorg_depth, latest_ethereum_block_number })
        },
    }
}

fn mark_rows_synced(rows: &mut Vec<DeploymentRecord>, id: &SubgraphDeploymentId)
    ensures
        deployments_view(final(rows)@) == mark_synced(deployments_view(old(rows)@), id@),
{
    let key = id.to_string();
    let n = rows.len();
    let mut i: usize = 0;
    while i < n
        invariant
            i <= n,
            n == rows@.len(),
            n == old(rows)@.len(),
            key@ == id@,
            forall|j: int|
                0 <= j < i ==> (#[trigger] rows@[j])@ == mark_synced(
                    deployments_view(old(rows)@),
                    id@,
                )[j],
            forall|j: int| i <= j < n ==> rows@[j] == old(rows)@[j],
        decreases n - i,
    {
        if rows[i].id == key && !rows[i].synced {
            rows[i].synced = true;
        }
        i = i + 1;
    }
}

/// Marks the deployment `id` as synced. A deployment that is synced
/// already, or of which the shard has no record, is left as it is.
pub fn set_synced(store: &mut Store, id: &SubgraphDeploymentId) -> (r: Result<(), StoreError>)
    ensures
        r is Ok,
        final(store)@ == old(store)@.with_deployments(mark_synced(old(store)@.deployments, id@)),
{
    mark_rows_synced(&mut store.deployments, id);
    Ok(())
}

/// Whether the shard has a record of the deployment `id`.
pub fn deployment_exists(store: &Store, id: &str) -> (r: Result<bool, StoreError>)
    ensures
        r == Ok::<bool, StoreError>(any_row(store@.deployments, deployment_is(id@))),
{
    match store.find_deployment(id) {
        Some(_) => Ok(true),
        None => Ok(false),
    }
}

/// Whether the record of the deployment `id` says that it is synced;
/// `false` where there is no record.
pub open spec fn is_synced(rows: Seq<DeploymentView>, id: Seq<char>) -> bool {
    match first_row(rows, deployment_is(id)) {
        Some(row) => row.synced,
        None => false,
    }
}

/// Whether the shard has a record of the deployment `id` and the
/// deployment is synced.
pub fn exists_and_synced(store: &Store, id: &str) -> (r: Result<bool, StoreError>)
    ensures
        r == Ok::<bool, StoreError>(is_synced(store@.deployments, id@)),
{
    match store.find_deployment(id) {
        Some(i) => Ok(store.deployments[i].synced),
        None => Ok(false),
    }
}

/// The test that an error record is a deterministic error of `id`.
pub open spec fn deterministic_error_of(id: Seq<char>) -> spec_fn(ErrorView) -> bool {
    |e: ErrorView| e.subgraph_id == Some(id) && e.deterministic
}

/// The health that the deployment `id` has once it is no longer failed:
/// unhealthy where a deterministic error is recorded for it, healthy
/// otherwise.
pub open spec fn health_without_failure(errors: Seq<ErrorView>, id: Seq<char>) -> SubgraphHealth {
    if any_row(errors, deterministic_error_of(id)) {
        SubgraphHealth::Unhealthy
    } else {
        SubgraphHealth::Healthy
    }
}

/// A record after the failure was cleared.
pub open spec fn unfailed(row: DeploymentView, health: SubgraphHealth) -> DeploymentView {
    DeploymentView { failed: false, health, fatal_error: None, ..row }
}

/// The deployment records after the failure of `id` was cleared: only
/// records whose health is `Failed` change.
pub open spec fn clear_failure(rows: Seq<DeploymentView>, id: Seq<char>, health: SubgraphHealth) -> Seq<
    DeploymentView,
> {
    update_where(
        rows,
        |r: DeploymentView| r.id == id && r.health == SubgraphHealth::Failed,
        |r: DeploymentView| unfailed(r, health),
    )
}

fn has_deterministic_error(errors: &Vec<ErrorRecord>, id: &SubgraphDeploymentId) -> (r: bool)
    ensures
        r == any_row(errors_view(errors@), deterministic_error_of(id@)),
{
    let key = id.to_string();
    let ghost p = deterministic_error_of(id@);
    let mut i: usize = 0;
    while i < errors.len()
        invariant
            i <= errors@.len(),
            key@ == id@,
            p == deterministic_error_of(id@),
            forall|j: int| 0 <= j < i ==> !p(#[trigger] errors_view(errors@)[j]),
        decreases errors.len() - i,
    {
        let of_id = match &errors[i].subgraph_id {
            Some(s) => *s == key,
            None => false,
        };
        if of_id && errors[i].deterministic {
            assert(p(errors_view(errors@)[i as int]));
            return true;
        }
        i = i + 1;
    }
    proof {
        lemma_first_absent(errors_view(errors@), p);
    }
    false
}

fn clear_rows_failure(rows: &mut Vec<DeploymentRecord>, id: &SubgraphDeploymentId, health: SubgraphHealth)
    ensures
        deployments_view(final(rows)@) == clear_failure(deployments_view(old(rows)@), id@, health),
{
    let key = id.to_string();
    let n = rows.len();
    let mut i: usize = 0;
    while i < n
        invariant
            i <= n,
            n == rows@.len(),
            n == old(rows)@.len(),
            key@ == id@,
            forall|j: int|
                0 <= j < i ==> (#[trigger] rows@[j])@ == clear_failure(
                    deployments_view(old(rows)@),
                    id@,
                    health,
                )[j],
            forall|j: int| i <= j < n ==> rows@[j] == old(rows)@[j],
        decreases n - i,
    {
        let failed = match rows[i].health {
            SubgraphHealth::Failed => true,
            _ => false,
        };
        if rows[i].id == key && failed {
            rows[i].failed = false;
            rows[i].health = health;
            rows[i].fatal_error = None;
        }
        i = i + 1;
    }
}

/// Clears the failure of the deployment `id`: where its health is `Failed`,
/// it becomes unhealthy if a deterministic error is recorded for it and
/// healthy otherwise, and its fatal error is forgotten. A deployment that
/// is not failed, or of which the shard has no record, is left as it is.
pub fn unfail(store: &mut Store, id: &SubgraphDeploymentId) -> (r: Result<(), StoreError>)
    ensures
        r is Ok,
        final(store)@ == old(store)@.with_deployments(
            clear_failure(
                old(store)@.deployments,
                id@,
                health_without_failure(old(store)@.errors, id@),
            ),
        ),
{
    let prev_health = if has_deterministic_error(&store.errors, id) {
        SubgraphHealth::Unhealthy
    } else {
        SubgraphHealth::Healthy
    };
    clear_rows_failure(&mut store.deployments, id, prev_health);
    Ok(())
}

/// The graft of a deployment: the deployment whose data it starts from,
/// and the block up to which that data is taken.
pub type Graft = (SubgraphDeploymentId, EthereumBlockPointer);

/// The mathematical value of a graft.
pub type GraftView = (Seq<char>, BlockPointerView);

/// Whether the data of the graft of a record was copied already: the
/// deployment's own latest block is at or past the block of the graft.
pub open spec fn graft_copied(row: DeploymentView) -> bool {
    &&& row.latest_block_number matches Some(latest)
    &&& row.graft_block_number matches Some(graft)
    &&& latest >= graft
}

/// The graft that a record holds. A record without base, hash and number
/// has none. A record with only some of the three violates a constraint,
/// and so does one whose base is no well-formed deployment id, whose hash
/// does not have 32 bytes, or whose block number is no valid number for a
/// block pointer.
pub open spec fn stored_graft(row: DeploymentView) -> Result<Option<GraftView>, ErrorKind> {
    match (row.graft_base, row.graft_block_hash, row.graft_block_number) {
        (None, None, None) => Ok(None),
        (Some(base), Some(hash), Some(number)) => if valid_deployment_id(base) && hash.len()
            == BLOCK_HASH_LEN && 0 <= number <= MAX_BLOCK_NUMBER {
            Ok(Some((base, BlockPointerView { hash, number })))
        } else {
            Err(ErrorKind::ConstraintViolation)
        },
        _ => Err(ErrorKind::ConstraintViolation),
    }
}

/// The graft of the deployment `id` as the records `rows` give it. The
/// metadata deployment has none, and neither has a deployment without a
/// record. With `pending_only`, a graft whose data was copied already is
/// passed over.
pub open spec fn graft_of(rows: Seq<DeploymentView>, id: Seq<char>, pending_only: bool) -> Result<
    Option<GraftView>,
    ErrorKind,
> {
    if id == meta_id() {
        Ok(None)
    } else {
        match first_row(rows, deployment_is(id)) {
            None => Ok(None),
            Some(row) => if pending_only && graft_copied(row) {
                Ok(None)
            } else {
                stored_graft(row)
            },
        }
    }
}

/// Whether `r` is the outcome `expected` of a lookup of a graft, messages
/// left aside.
pub open spec fn graft_yields(
    r: Result<Option<Graft>, StoreError>,
    expected: Result<Option<GraftView>, ErrorKind>,
) -> bool {
    match expected {
        Ok(None) => r == Ok::<Option<Graft>, StoreError>(None),
        Ok(Some((base, block))) => {
            &&& r matches Ok(Some(graft))
            &&& graft.0@ == base
            &&& graft.1@ == block
        },
        Err(k) => r is Err && r->Err_0.spec_kind() == k,
    }
}

/// The message that says what is wrong with the stored graft of the
/// deployment `id`: `what`, followed by the name of the deployment.
pub open spec fn graft_violation_message(id: Seq<char>, what: Seq<char>) -> Seq<char> {
    what + " of deployment `"@ + id + "`"@
}

/// The constraint violation that says what is wrong with the stored graft
/// of the deployment `id`.
fn graft_violation(id: &SubgraphDeploymentId, what: &str) -> (r: StoreError)
    ensures
        r.spec_kind() == ErrorKind::ConstraintViolation,
        r.spec_message() == graft_violation_message(id@, what@),
{
    let mut message = concat3(what, " of deployment `", id.as_str());
    message.append("`");
    StoreError::ConstraintViolation(message)
}

/// What is said of a stored graft that cannot be handed out: that its
/// block hash or its block number is wrong, which base it names that is no
/// well-formed deployment id, or that only some of its parts are set.
pub open spec fn stored_graft_message(row: DeploymentView, id: Seq<char>) -> Seq<char> {
    match (row.graft_base, row.graft_block_hash, row.graft_block_number) {
        (Some(base), Some(hash), Some(number)) => if hash.len() != BLOCK_HASH_LEN {
            graft_violation_message(id, "the graft block hash must have 32 bytes"@)
        } else if !(0 <= number <= MAX_BLOCK_NUMBER) {
            graft_violation_message(id, "the graft block number is out of range"@)
        } else {
            "the base subgraph for a graft must be a valid subgraph id but is `"@ + base + "`"@
        },
        _ => graft_violation_message(
            id,
            "graft base, block hash and block number must be set together"@,
        ),
    }
}

/// What is said where the graft of the deployment `id` cannot be handed
/// out.
pub open spec fn graft_message(rows: Seq<DeploymentView>, id: Seq<char>) -> Seq<char> {
    match first_row(rows, deployment_is(id)) {
        Some(row) => stored_graft_message(row, id),
        None => Seq::empty(),
    }
}

fn read_stored_graft(row: &DeploymentRecord, id: &SubgraphDeploymentId) -> (r: Result<
    Option<Graft>,
    StoreError,
>)
    ensures
        graft_yields(r, stored_graft(row@)),
        r matches Err(e) ==> e.spec_message() == stored_graft_message(row@, id@),
{
    match (&row.graft_base, &row.graft_block_hash, &row.graft_block_number) {
        (None, None, None) => Ok(None),
        (Some(subgraph), Some(hash), Some(block)) => {
            if hash.len() != BLOCK_HASH_LEN {
                return Err(graft_violation(id, "the graft block hash must have 32 bytes"));
            }
            if *block < 0 || *block > 2147483647 {
                return Err(graft_violation(id, "the graft block number is out of range"));
            }
            let base = match SubgraphDeploymentId::new(subgraph.as_str()) {
                Ok(base) => base,
                Err(_) => {
                    return Err(
                        StoreError::ConstraintViolation(
                            concat3(
                                "the base subgraph for a graft must be a valid subgraph id but is `",
                                subgraph.as_str(),
                                "`",
                            ),
                        ),
                    );
                },
            };
            let hash = BlockHash::from_slice(hash.as_slice());
            match EthereumBlockPointer::new(hash, *block as u64) {
                Ok(ptr) => Ok(Some((base, ptr))),
                Err(e) => Err(e),
            }
        },
        _ => Err(
            graft_violation(id, "graft base, block hash and block number must be set together"),
        ),
    }
}

/// The graft of the deployment `id`. With `pending_only`, a graft is only
/// returned as long as the deployment has not progressed to the block of
/// the graft, that is as long as the data of the graft was not copied. The
/// message of the error says what is wrong with the stored graft.
pub fn graft(store: &Store, id: &SubgraphDeploymentId, pending_only: bool) -> (r: Result<
    Option<Graft>,
    StoreError,
>)
    ensures
        graft_yields(r, graft_of(store@.deployments, id@, pending_only)),
        r matches Err(e) ==> e.spec_message() == graft_message(store@.deployments, id@),
{
    if id.is_meta() {
        return Ok(None);
    }
    match store.find_deployment(id.as_str()) {
        None => Ok(None),
        Some(i) => {
            let row = &store.deployments[i];
            let copied = match (&row.latest_ethereum_block_number, &row.graft_block_number) {
                (Some(latest), Some(number)) => *latest >= *number,
                _ => false,
            };
            if pending_only && copied {
                Ok(None)
            } else {
                read_stored_graft(row, id)
            }
        },
    }
}

/// The graft of the deployment `id`, as long as its data was not copied:
/// none where the deployment has no graft or has progressed to the block of
/// the graft.
pub fn graft_pending(store: &Store, id: &SubgraphDeploymentId) -> (r: Result<Option<Graft>, StoreError>)
    ensures
        graft_yields(r, graft_of(store@.deployments, id@, true)),
        r matches Err(e) ==> e.spec_message() == graft_message(store@.deployments, id@),
{
    graft(store, id, true)
}

/// The graft of the deployment `id`; none where the deployment has no
/// graft.
pub fn graft_point(store: &Store, id: &SubgraphDeploymentId) -> (r: Result<Option<Graft>, StoreError>)
    ensures
        graft_yields(r, graft_of(store@.deployments, id@, false)),
        r matches Err(e) ==> e.spec_message() == graft_message(store@.deployments, id@),
{
    graft(store, id, false)
}

/// The id of the manifest of the deployment `id`.
pub open spec fn manifest_id_of(id: Seq<char>) -> Seq<char> {
    id + "-manifest"@
}

/// The id of the manifest of the deployment `id`.
pub fn manifest_id(id: &SubgraphDeploymentId) -> (r: String)
    ensures
        r@ == manifest_id_of(id@),
{
    let mut s = id.to_string();
    s.append("-manifest");
    s
}

/// Where the text of the schema of a deployment is found.
#[derive(Debug, PartialEq, Eq)]
pub enum SchemaSource {
    /// The schema of the metadata itself, which is built in.
    BuiltIn,
    /// The text that the manifest of the deployment holds.
    Stored(String),
}

/// The mathematical value of a schema source.
pub enum SchemaSourceView {
    BuiltIn,
    Stored(Seq<char>),
}

impl View for SchemaSource {
    type V = SchemaSourceView;

    open spec fn view(&self) -> SchemaSourceView {
        match self {
            SchemaSource::BuiltIn => SchemaSourceView::BuiltIn,
            SchemaSource::Stored(text) => SchemaSourceView::Stored(text@),
        }
    }
}

/// The schema of the deployment `id` as the shard gives it: built in for
/// the metadata deployment, else the text in the manifest of the
/// deployment, which is not found where the shard has no such manifest.
pub open spec fn schema_of(store: StoreView, id: Seq<char>) -> Result<SchemaSourceView, ErrorKind> {
    if id == meta_id() {
        Ok(SchemaSourceView::BuiltIn)
    } else {
        match store.manifest(manifest_id_of(id)) {
            Some(manifest) => Ok(SchemaSourceView::Stored(manifest.schema)),
            None => Err(ErrorKind::NotFound),
        }
    }
}

/// What is said where the manifest of the deployment `id` is missing.
pub open spec fn missing_manifest_message(id: Seq<char>) -> Seq<char> {
    "no manifest `"@ + manifest_id_of(id) + "`"@
}

/// What is said where the network of the deployment `id` cannot be given:
/// that its manifest is missing, or which data source is.
pub open spec fn network_message(store: StoreView, id: Seq<char>) -> Seq<char> {
    match store.manifest(manifest_id_of(id)) {
        None => missing_manifest_message(id),
        Some(manifest) => "no data source `"@ + manifest.data_sources[0] + "`"@,
    }
}

/// The schema of the deployment `id`. To parse its text is left to the
/// caller.
pub fn schema(store: &Store, id: SubgraphDeploymentId) -> (r: Result<SchemaSource, StoreError>)
    ensures
        yields(r, schema_of(store@, id@)),
        r matches Err(e) ==> e.spec_message() == missing_manifest_message(id@),
{
    if id.is_meta() {
        Ok(SchemaSource::BuiltIn)
    } else {
        let manifest = manifest_id(&id);
        match store.find_manifest(manifest.as_str()) {
            Some(i) => Ok(SchemaSource::Stored(store.manifests[i].schema.clone())),
            None => Err(StoreError::NotFound(concat3("no manifest `", manifest.as_str(), "`"))),
        }
    }
}

/// The network of the deployment `id` as the shard gives it: that of the
/// first data source of its manifest. A manifest without data sources has
/// none. The manifest, or the data source it names, may be missing.
pub open spec fn network_of(store: StoreView, id: Seq<char>) -> Result<Option<Seq<char>>, ErrorKind> {
    match store.manifest(manifest_id_of(id)) {
        None => Err(ErrorKind::NotFound),
        Some(manifest) => if manifest.data_sources.len() == 0 {
            Ok(None)
        } else {
            match store.data_source(manifest.data_sources[0]) {
                None => Err(ErrorKind::NotFound),
                Some(data_source) => Ok(data_source.network),
            }
        },
    }
}

/// The network that the deployment `id` indexes: that of its first data
/// source.
pub fn network(store: &Store, id: &SubgraphDeploymentId) -> (r: Result<Option<String>, StoreError>)
    ensures
        match network_of(store@, id@) {
            Ok(network) => r is Ok && text(r->Ok_0) == network,
            Err(k) => r is Err && r->Err_0.spec_kind() == k && r->Err_0.spec_message()
                == network_message(store@, id@),
        },
{
    let manifest = manifest_id(id);
    match store.find_manifest(manifest.as_str()) {
        None => Err(StoreError::NotFound(concat3("no manifest `", manifest.as_str(), "`"))),
        Some(i) => {
            let sources = &store.manifests[i].data_sources;
            if sources.len() == 0 {
                Ok(None)
            } else {
                let source = &sources[0];
                match store.find_data_source(source.as_str()) {
                    None => Err(
                        StoreError::NotFound(concat3("no data source `", source.as_str(), "`")),
                    ),
                    Some(j) => Ok(clone_text(&store.data_sources[j].network)),
                }
            }
        },
    }
}

} // verus!
