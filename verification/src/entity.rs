//! What is handed in when a deployment is created, and how a shard writes
//! the first records of a deployment.

use crate::block::{BlockPointerView, EthereumBlockPointer};
use crate::deployment::{manifest_id, manifest_id_of, Graft, GraftView};
use crate::event::{changes_view, EntityChange, EntityChangeOperation, EntityChangeView, StoreEvent};
use crate::ids::SubgraphDeploymentId;
use crate::metadata::MetadataType;
use crate::records::{
    clone_text, data_source_is, deployment_is, manifest_is, text, texts, DataSourceRecord,
    DataSourceView, DeploymentRecord, DeploymentView, ManifestRecord, ManifestView, Store,
    StoreView, SubgraphHealth,
};
use crate::text::{decimal, decimal_string};
use crate::table::{any_row, lemma_first_found, lemma_first_where, upsert};
use vstd::prelude::*;
use vstd::string::*;

verus! {

/// The schema of a deployment: a text that was validated elsewhere, kept
/// under the id of the deployment.
#[derive(Debug, PartialEq, Eq)]
pub struct Schema {
    pub id: SubgraphDeploymentId,
    pub document: String,
}

/// A source of data of a deployment.
#[derive(Debug, PartialEq, Eq)]
pub struct DataSource {
    pub name: String,
    /// The network that the data source reads from.
    pub network: Option<String>,
}

/// The manifest from which a deployment is made.
#[derive(Debug, PartialEq, Eq)]
pub struct SubgraphManifest {
    pub id: SubgraphDeploymentId,
    pub schema: Schema,
    pub data_sources: Vec<DataSource>,
    /// The deployment whose data this one starts from, if any.
    pub graft: Option<Graft>,
}

/// A deployment as it is when it is created.
#[derive(Debug, PartialEq, Eq)]
pub struct SubgraphDeploymentEntity {
    /// The text of the schema.
    pub schema: String,
    /// The network of each data source, in order.
    pub networks: Vec<Option<String>>,
    pub synced: bool,
    pub earliest_block: Option<EthereumBlockPointer>,
    pub graft: Option<Graft>,
}

/// The mathematical value of a deployment as it is when it is created.
pub struct DeploymentEntityView {
    pub schema: Seq<char>,
    pub networks: Seq<Option<Seq<char>>>,
    pub synced: bool,
    pub earliest_block: Option<BlockPointerView>,
    pub graft: Option<GraftView>,
}

/// The value of an optional block pointer.
pub open spec fn pointer(o: Option<EthereumBlockPointer>) -> Option<BlockPointerView> {
    match o {
        Some(ptr) => Some(ptr@),
        None => None,
    }
}

/// The value of an optional graft.
pub open spec fn graft_view(o: Option<Graft>) -> Option<GraftView> {
    match o {
        Some(graft) => Some((graft.0@, graft.1@)),
        None => None,
    }
}

/// The values of a list of optional texts, in order.
pub open spec fn optional_texts(v: Seq<Option<String>>) -> Seq<Option<Seq<char>>> {
    v.map_values(|o: Option<String>| text(o))
}

impl View for SubgraphDeploymentEntity {
    type V = DeploymentEntityView;

    open spec fn view(&self) -> DeploymentEntityView {
        DeploymentEntityView {
            schema: self.schema@,
            networks: optional_texts(self.networks@),
            synced: self.synced,
            earliest_block: pointer(self.earliest_block),
            graft: graft_view(self.graft),
        }
    }
}

/// The networks of a list of data sources, in order.
pub open spec fn networks_of(sources: Seq<DataSource>) -> Seq<Option<Seq<char>>> {
    sources.map_values(|s: DataSource| text(s.network))
}

/// A copy of an optional graft.
pub fn clone_graft(o: &Option<Graft>) -> (r: Option<Graft>)
    ensures
        graft_view(r) == graft_view(*o),
{
    match o {
        Some(graft) => Some((graft.0.clone(), graft.1)),
        None => None,
    }
}

impl SubgraphDeploymentEntity {
    /// The deployment that `manifest` describes, before any block was
    /// processed.
    pub fn new(
        manifest: &SubgraphManifest,
        synced: bool,
        earliest_block: Option<EthereumBlockPointer>,
    ) -> (r: SubgraphDeploymentEntity)
        ensures
            r@ == (DeploymentEntityView {
                schema: manifest.schema.document@,
                networks: networks_of(manifest.data_sources@),
                synced,
                earliest_block: pointer(earliest_block),
                graft: graft_view(manifest.graft),
            }),
    {
        let mut networks: Vec<Option<String>> = Vec::new();
        let mut i: usize = 0;
        while i < manifest.data_sources.len()
            invariant
                i <= manifest.data_sources@.len(),
                networks@.len() == i,
                forall|j: int|
                    0 <= j < i ==> text(#[trigger] networks@[j]) == text(
                        manifest.data_sources@[j].network,
                    ),
            decreases manifest.data_sources.len() - i,
        {
            networks.push(clone_text(&manifest.data_sources[i].network));
            i = i + 1;
        }
        assert(optional_texts(networks@) =~= networks_of(manifest.data_sources@));
        SubgraphDeploymentEntity {
            schema: manifest.schema.document.clone(),
            networks,
            synced,
            earliest_block,
            graft: clone_graft(&manifest.graft),
        }
    }

    /// The same deployment, starting from the data of `base`.
    pub fn graft(self, base: Option<Graft>) -> (r: SubgraphDeploymentEntity)
        ensures
            r@ == (DeploymentEntityView { graft: graft_view(base), ..self@ }),
    {
        SubgraphDeploymentEntity {
            schema: self.schema,
            networks: self.networks,
            synced: self.synced,
            earliest_block: self.earliest_block,
            graft: base,
        }
    }
}

/// The id of the data source number `i` of the deployment `id`.
pub open spec fn data_source_id_of(id: Seq<char>, i: nat) -> Seq<char> {
    manifest_id_of(id) + "-data-source-"@ + decimal(i)
}

/// The id of the data source number `i` of the deployment `id`.
pub fn data_source_id(id: &SubgraphDeploymentId, i: usize) -> (r: String)
    ensures
        r@ == data_source_id_of(id@, i as nat),
{
    let mut s = manifest_id(id);
    s.append("-data-source-");
    s.append(decimal_string(i).as_str());
    s
}

/// The first record of the deployment `id`: healthy, without blocks but
/// for the earliest, with all counters at zero.
pub open spec fn initial_record(id: Seq<char>, entity: DeploymentEntityView) -> DeploymentView {
    DeploymentView {
        id,
        manifest: manifest_id_of(id),
        failed: false,
        health: SubgraphHealth::Healthy,
        synced: entity.synced,
        fatal_error: None,
        non_fatal_errors: Seq::empty(),
        earliest_block_hash: match entity.earliest_block {
            Some(ptr) => Some(ptr.hash),
            None => None,
        },
        earliest_block_number: match entity.earliest_block {
            Some(ptr) => Some(ptr.number),
            None => None,
        },
        latest_block_hash: None,
        latest_block_number: None,
        graft_base: match entity.graft {
            Some(graft) => Some(graft.0),
            None => None,
        },
        graft_block_hash: match entity.graft {
            Some(graft) => Some(graft.1.hash),
            None => None,
        },
        graft_block_number: match entity.graft {
            Some(graft) => Some(graft.1.number),
            None => None,
        },
        reorg_count: 0,
        current_reorg_depth: 0,
        max_reorg_depth: 0,
    }
}

/// The records of the data sources of the deployment `id`, one for each
/// network of `networks`.
pub open spec fn data_source_rows(id: Seq<char>, networks: Seq<Option<Seq<char>>>) -> Seq<
    DataSourceView,
> {
    Seq::new(
        networks.len(),
        |i: int| DataSourceView { id: data_source_id_of(id, i as nat), network: networks[i] },
    )
}

/// The manifest of the deployment `id`.
pub open spec fn manifest_row(id: Seq<char>, entity: DeploymentEntityView) -> ManifestView {
    ManifestView {
        id: manifest_id_of(id),
        schema: entity.schema,
        data_sources: data_source_rows(id, entity.networks).map_values(|r: DataSourceView| r.id),
    }
}

/// The data sources `rows` after each record of `news` was stored, in
/// order.
pub open spec fn upsert_data_sources(rows: Seq<DataSourceView>, news: Seq<DataSourceView>) -> Seq<
    DataSourceView,
>
    decreases news.len(),
{
    if news.len() == 0 {
        rows
    } else {
        upsert(
            upsert_data_sources(rows, news.drop_last()),
            data_source_is(news.last().id),
            news.last(),
        )
    }
}

/// The change that says that a metadata entity of the deployment `id` was
/// written.
pub open spec fn written(id: Seq<char>, kind: MetadataType, entity_id: Seq<char>) -> EntityChangeView {
    EntityChangeView {
        subgraph_id: id,
        entity_type: kind.name(),
        entity_id,
        operation: EntityChangeOperation::Written,
    }
}

/// The changes that the first records of the deployment `id` make: its
/// record, its manifest, and each of its data sources.
pub open spec fn creation_changes(id: Seq<char>, entity: DeploymentEntityView) -> Seq<
    EntityChangeView,
> {
    seq![
        written(id, MetadataType::SubgraphDeployment, id),
        written(id, MetadataType::SubgraphManifest, manifest_id_of(id)),
    ] + data_source_rows(id, entity.networks).map_values(
        |r: DataSourceView| written(id, MetadataType::EthereumContractDataSource, r.id),
    )
}

impl StoreView {
    /// The tables with the first records of the deployment `id` stored.
    pub open spec fn with_records(self, id: Seq<char>, entity: DeploymentEntityView) -> StoreView {
        StoreView {
            deployments: upsert(self.deployments, deployment_is(id), initial_record(id, entity)),
            manifests: upsert(
                self.manifests,
                manifest_is(manifest_id_of(id)),
                manifest_row(id, entity),
            ),
            data_sources: upsert_data_sources(
                self.data_sources,
                data_source_rows(id, entity.networks),
            ),
            ..self
        }
    }

    /// The tables and the changes after the deployment `id` was created in
    /// the shard. The records are written where the shard has no record of
    /// the deployment, or where `replace` asks to write them again; else
    /// nothing is written and nothing changes. Storage for the data of the
    /// deployment is set up where the shard had no record of it.
    pub open spec fn create(self, id: Seq<char>, entity: DeploymentEntityView, replace: bool) -> (
        StoreView,
        Seq<EntityChangeView>,
    ) {
        let exists = any_row(self.deployments, deployment_is(id));
        let written = if replace || !exists {
            self.with_records(id, entity)
        } else {
            self
        };
        (
            if exists {
                written
            } else {
                StoreView { layouts: written.layouts.push(id), ..written }
            },
            if replace || !exists {
                creation_changes(id, entity)
            } else {
                Seq::empty()
            },
        )
    }
}

fn store_deployment(store: &mut Store, record: DeploymentRecord)
    ensures
        final(store)@ == (StoreView {
            deployments: upsert(old(store)@.deployments, deployment_is(record.id@), record@),
            ..old(store)@
        }),
{
    let ghost p = deployment_is(record.id@);
    let ghost rows = store@.deployments;
    proof {
        lemma_first_where(rows, p);
    }
    match store.find_deployment(record.id.as_str()) {
        Some(i) => {
            proof {
                lemma_first_found(rows, p, i as int);
            }
            store.deployments.set(i, record);
            assert(store@.deployments =~= rows.update(i as int, record@));
        },
        None => {
            store.deployments.push(record);
            assert(store@.deployments =~= rows.push(record@));
        },
    }
}

fn store_manifest(store: &mut Store, record: ManifestRecord)
    ensures
        final(store)@ == (StoreView {
            manifests: upsert(old(store)@.manifests, manifest_is(record.id@), record@),
            ..old(store)@
        }),
{
    let ghost p = manifest_is(record.id@);
    let ghost rows = store@.manifests;
    proof {
        lemma_first_where(rows, p);
    }
    match store.find_manifest(record.id.as_str()) {
        Some(i) => {
            proof {
                lemma_first_found(rows, p, i as int);
            }
            store.manifests.set(i, record);
            assert(store@.manifests =~= rows.update(i as int, record@));
        },
        None => {
            store.manifests.push(record);
            assert(store@.manifests =~= rows.push(record@));
        },
    }
}

fn store_data_source(store: &mut Store, record: DataSourceRecord)
    ensures
        final(store)@ == (StoreView {
            data_sources: upsert(old(store)@.data_sources, data_source_is(record.id@), record@),
            ..old(store)@
        }),
{
    let ghost p = data_source_is(record.id@);
    let ghost rows = store@.data_sources;
    proof {
        lemma_first_where(rows, p);
    }
    match store.find_data_source(record.id.as_str()) {
        Some(i) => {
            proof {
                lemma_first_found(rows, p, i as int);
            }
            store.data_sources.set(i, record);
            assert(store@.data_sources =~= rows.update(i as int, record@));
        },
        None => {
            store.data_sources.push(record);
            assert(store@.data_sources =~= rows.push(record@));
        },
    }
}

/// The change that says that a metadata entity of the deployment `id` was
/// written.
pub fn make_written(id: &SubgraphDeploymentId, kind: MetadataType, entity_id: &str) -> (r:
    EntityChange)
    ensures
        r@ == written(id@, kind, entity_id@),
{
    EntityChange {
        subgraph_id: id.clone(),
        entity_type: kind.to_string(),
        entity_id: entity_id.to_owned(),
        operation: EntityChangeOperation::Written,
    }
}

fn initial_deployment(id: &SubgraphDeploymentId, entity: &SubgraphDeploymentEntity) -> (r:
    DeploymentRecord)
    ensures
        r@ == initial_record(id@, entity@),
{
    let (earliest_hash, earliest_number) = match &entity.earliest_block {
        Some(ptr) => (Some(ptr.hash().to_vec()), Some(ptr.number() as i64)),
        None => (None, None),
    };
    let (graft_base, graft_hash, graft_number) = match &entity.graft {
        Some(graft) => (
            Some(graft.0.to_string()),
            Some(graft.1.hash().to_vec()),
            Some(graft.1.number() as i64),
        ),
        None => (None, None, None),
    };
    let record = DeploymentRecord {
        id: id.to_string(),
        manifest: manifest_id(id),
        failed: false,
        health: SubgraphHealth::Healthy,
        synced: entity.synced,
        fatal_error: None,
        non_fatal_errors: Vec::new(),
        earliest_ethereum_block_hash: earliest_hash,
        earliest_ethereum_block_number: earliest_number,
        latest_ethereum_block_hash: None,
        latest_ethereum_block_number: None,
        graft_base,
        graft_block_hash: graft_hash,
        graft_block_number: graft_number,
        reorg_count: 0,
        current_reorg_depth: 0,
        max_reorg_depth: 0,
    };
    assert(record@.non_fatal_errors =~= Seq::empty());
    record
}

fn write_records(store: &mut Store, id: &SubgraphDeploymentId, entity: &SubgraphDeploymentEntity) -> (r:
    Vec<EntityChange>)
    ensures
        final(store)@ == old(store)@.with_records(id@, entity@),
        changes_view(r@) == creation_changes(id@, entity@),
{
    let ghost rows = data_source_rows(id@, entity@.networks);
    let ghost change_of = |r: DataSourceView|
        written(id@, MetadataType::EthereumContractDataSource, r.id);
    let manifest = manifest_id(id);
    let mut changes: Vec<EntityChange> = Vec::new();
    changes.push(make_written(id, MetadataType::SubgraphDeployment, id.as_str()));
    changes.push(make_written(id, MetadataType::SubgraphManifest, manifest.as_str()));
    store_deployment(store, initial_deployment(id, entity));
    let ghost base = store@;
    let mut ids: Vec<String> = Vec::new();
    let mut i: usize = 0;
    proof {
        assert(changes_view(changes@) =~= seq![
            written(id@, MetadataType::SubgraphDeployment, id@),
            written(id@, MetadataType::SubgraphManifest, manifest_id_of(id@)),
        ] + rows.take(0).map_values(change_of));
    }
    while i < entity.networks.len()
        invariant
            i <= entity.networks@.len(),
            rows == data_source_rows(id@, entity@.networks),
            rows.len() == entity.networks@.len(),
            change_of == (|r: DataSourceView|
                written(id@, MetadataType::EthereumContractDataSource, r.id)),
            store@ == (StoreView {
                data_sources: upsert_data_sources(base.data_sources, rows.take(i as int)),
                ..base
            }),
            texts(ids@) == rows.take(i as int).map_values(|r: DataSourceView| r.id),
            changes_view(changes@) == seq![
                written(id@, MetadataType::SubgraphDeployment, id@),
                written(id@, MetadataType::SubgraphManifest, manifest_id_of(id@)),
            ] + rows.take(i as int).map_values(change_of),
        decreases entity.networks.len() - i,
    {
        let source_id = data_source_id(id, i);
        let record = DataSourceRecord {
            id: source_id.clone(),
            network: clone_text(&entity.networks[i]),
        };
        proof {
            assert(rows.take(i + 1).drop_last() =~= rows.take(i as int));
        }
        let ghost changes_before = changes_view(changes@);
        changes.push(
            make_written(id, MetadataType::EthereumContractDataSource, source_id.as_str()),
        );
        store_data_source(store, record);
        ids.push(source_id);
        proof {
            assert(changes_view(changes@) =~= changes_before.push(change_of(rows[i as int])));
            assert(rows.take(i + 1).map_values(change_of) =~= rows.take(i as int).map_values(
                change_of,
            ).push(change_of(rows[i as int])));
            assert(rows.take(i + 1).map_values(|r: DataSourceView| r.id) =~= rows.take(
                i as int,
            ).map_values(|r: DataSourceView| r.id).push(rows[i as int].id));
        }
        i = i + 1;
    }
    assert(rows.take(entity.networks@.len() as int) =~= rows);
    store_manifest(
        store,
        ManifestRecord { id: manifest, schema: entity.schema.clone(), data_sources: ids },
    );
    changes
}

/// Creates the deployment `id` in the shard and returns the event with the
/// changes. The records are written where the shard has no record of the
/// deployment, or where `replace` asks to write them again. Storage for
/// the data of the deployment is set up where the shard had no record of
/// it.
pub fn create_deployment(
    store: &mut Store,
    id: &SubgraphDeploymentId,
    entity: &SubgraphDeploymentEntity,
    replace: bool,
) -> (r: StoreEvent)
    ensures
        (final(store)@, r@) == old(store)@.create(id@, entity@, replace),
{
    let exists = store.find_deployment(id.as_str()).is_some();
    let changes = if replace || !exists {
        write_records(store, id, entity)
    } else {
        Vec::new()
    };
    if !exists {
        let ghost before = store@;
        store.layouts.push(id.to_string());
        assert(store@.layouts =~= before.layouts.push(id@));
    }
    StoreEvent::new(changes)
}

} // verus!
