//! The records that one shard keeps about its deployments, and the shard's
//! tables as a whole.

use crate::table::{any_row, first_row, is_first, lemma_first_absent, lemma_first_found};
use vstd::prelude::*;

verus! {

/// The health of a deployment.
#[derive(Debug, Clone, Copy, PartialEq, Eq, Hash, Structural)]
pub enum SubgraphHealth {
    /// Indexing stopped on a fatal error.
    Failed,
    /// Indexing proceeds without errors.
    Healthy,
    /// Indexing proceeds, but some data was skipped after an error.
    Unhealthy,
}

/// The value of an optional text.
pub open spec fn text(o: Option<String>) -> Option<Seq<char>> {
    match o {
        Some(s) => Some(s@),
        None => None,
    }
}

/// The value of optional bytes.
pub open spec fn bytes(o: Option<Vec<u8>>) -> Option<Seq<u8>> {
    match o {
        Some(b) => Some(b@),
        None => None,
    }
}

/// The value of an optional stored number.
pub open spec fn number(o: Option<i64>) -> Option<int> {
    match o {
        Some(n) => Some(n as int),
        None => None,
    }
}

/// The values of a list of texts, in order.
pub open spec fn texts(v: Seq<String>) -> Seq<Seq<char>> {
    v.map_values(|s: String| s@)
}

/// A copy of an optional text.
pub fn clone_text(o: &Option<String>) -> (r: Option<String>)
    ensures
        text(r) == text(*o),
{
    match o {
        Some(s) => Some(s.clone()),
        None => None,
    }
}

/// A copy of a list of texts.
pub fn clone_texts(v: &Vec<String>) -> (r: Vec<String>)
    ensures
        texts(r@) == texts(v@),
{
    let mut out: Vec<String> = Vec::new();
    let mut i: usize = 0;
    while i < v.len()
        invariant
            i <= v.len(),
            out@.len() == i,
            forall|j: int| 0 <= j < i ==> (#[trigger] out@[j])@ == v@[j]@,
        decreases v.len() - i,
    {
        out.push(v[i].clone());
        i = i + 1;
    }
    out
}

/// What a shard stores about one deployment. The fields hold stored data as
/// it is: a record may violate the invariants of the data model, and the
/// functions that read it say so with an error.
#[derive(Debug, PartialEq, Eq)]
pub struct DeploymentRecord {
    pub id: String,
    /// The id of the manifest of the deployment.
    pub manifest: String,
    pub failed: bool,
    pub health: SubgraphHealth,
    pub synced: bool,
    pub fatal_error: Option<String>,
    pub non_fatal_errors: Vec<String>,
    pub earliest_ethereum_block_hash: Option<Vec<u8>>,
    pub earliest_ethereum_block_number: Option<i64>,
    pub latest_ethereum_block_hash: Option<Vec<u8>>,
    pub latest_ethereum_block_number: Option<i64>,
    pub graft_base: Option<String>,
    pub graft_block_hash: Option<Vec<u8>>,
    pub graft_block_number: Option<i64>,
    /// How many times the block pointer was reverted.
    pub reorg_count: i64,
    /// How many times it was reverted since it last advanced.
    pub current_reorg_depth: i64,
    /// The largest value `current_reorg_depth` ever had.
    pub max_reorg_depth: i64,
}

/// The mathematical value of a deployment record.
pub struct DeploymentView {
    pub id: Seq<char>,
    pub manifest: Seq<char>,
    pub failed: bool,
    pub health: SubgraphHealth,
    pub synced: bool,
    pub fatal_error: Option<Seq<char>>,
    pub non_fatal_errors: Seq<Seq<char>>,
    pub earliest_block_hash: Option<Seq<u8>>,
    pub earliest_block_number: Option<int>,
    pub latest_block_hash: Option<Seq<u8>>,
    pub latest_block_number: Option<int>,
    pub graft_base: Option<Seq<char>>,
    pub graft_block_hash: Option<Seq<u8>>,
    pub graft_block_number: Option<int>,
    pub reorg_count: int,
    pub current_reorg_depth: int,
    pub max_reorg_depth: int,
}

impl View for DeploymentRecord {
    type V = DeploymentView;

    open spec fn view(&self) -> DeploymentView {
        DeploymentView {
            id: self.id@,
            manifest: self.manifest@,
            failed: self.failed,
            health: self.health,
            synced: self.synced,
            fatal_error: text(self.fatal_error),
            non_fatal_errors: texts(self.non_fatal_errors@),
            earliest_block_hash: bytes(self.earliest_ethereum_block_hash),
            earliest_block_number: number(self.earliest_ethereum_block_number),
            latest_block_hash: bytes(self.latest_ethereum_block_hash),
            latest_block_number: number(self.latest_ethereum_block_number),
            graft_base: text(self.graft_base),
            graft_block_hash: bytes(self.graft_block_hash),
            graft_block_number: number(self.graft_block_number),
            reorg_count: self.reorg_count as int,
            current_reorg_depth: self.current_reorg_depth as int,
            max_reorg_depth: self.max_reorg_depth as int,
        }
    }
}

impl DeploymentView {
    /// The graft of a record is whole: its base, block hash and block number
    /// are all present or all absent.
    pub open spec fn graft_whole(self) -> bool {
        (self.graft_base is Some) == (self.graft_block_hash is Some) && (self.graft_base is Some)
            == (self.graft_block_number is Some)
    }

    /// The reorganization counters of a record are consistent: none is
    /// negative, and the current depth does not exceed the largest depth.
    pub open spec fn reorgs_consistent(self) -> bool {
        0 <= self.reorg_count && 0 <= self.current_reorg_depth <= self.max_reorg_depth
    }
}

/// An error that was recorded while a deployment was indexed.
#[derive(Debug, PartialEq, Eq)]
pub struct ErrorRecord {
    pub id: String,
    /// The deployment in which the error occurred.
    pub subgraph_id: Option<String>,
    pub message: String,
    /// Whether the error would occur again on every attempt.
    pub deterministic: bool,
}

/// The mathematical value of an error record.
pub struct ErrorView {
    pub id: Seq<char>,
    pub subgraph_id: Option<Seq<char>>,
    pub message: Seq<char>,
    pub deterministic: bool,
}

impl View for ErrorRecord {
    type V = ErrorView;

    open spec fn view(&self) -> ErrorView {
        ErrorView {
            id: self.id@,
            subgraph_id: text(self.subgraph_id),
            message: self.message@,
            deterministic: self.deterministic,
        }
    }
}

/// The manifest of a deployment, as stored.
#[derive(Debug, PartialEq, Eq)]
pub struct ManifestRecord {
    pub id: String,
    /// The text of the schema of the deployment.
    pub schema: String,
    /// The ids of the data sources of the deployment, in order.
    pub data_sources: Vec<String>,
}

/// The mathematical value of a manifest record.
pub struct ManifestView {
    pub id: Seq<char>,
    pub schema: Seq<char>,
    pub data_sources: Seq<Seq<char>>,
}

impl View for ManifestRecord {
    type V = ManifestView;

    open spec fn view(&self) -> ManifestView {
        ManifestView { id: self.id@, schema: self.schema@, data_sources: texts(self.data_sources@) }
    }
}

/// A data source of a deployment, as stored.
#[derive(Debug, PartialEq, Eq)]
pub struct DataSourceRecord {
    pub id: String,
    /// The network that the data source reads from.
    pub network: Option<String>,
}

/// The mathematical value of a data source record.
pub struct DataSourceView {
    pub id: Seq<char>,
    pub network: Option<Seq<char>>,
}

impl View for DataSourceRecord {
    type V = DataSourceView;

    open spec fn view(&self) -> DataSourceView {
        DataSourceView { id: self.id@, network: text(self.network) }
    }
}

/// The tables of one shard: the records of the deployments whose data the
/// shard holds. A table is a list of rows.
#[derive(Debug, PartialEq, Eq)]
pub struct Store {
    pub deployments: Vec<DeploymentRecord>,
    pub errors: Vec<ErrorRecord>,
    pub manifests: Vec<ManifestRecord>,
    pub data_sources: Vec<DataSourceRecord>,
    /// The ids of the deployments for whose data the shard has set up
    /// storage.
    pub layouts: Vec<String>,
}

/// The mathematical value of the tables of a shard.
pub struct StoreView {
    pub deployments: Seq<DeploymentView>,
    pub errors: Seq<ErrorView>,
    pub manifests: Seq<ManifestView>,
    pub data_sources: Seq<DataSourceView>,
    pub layouts: Seq<Seq<char>>,
}

/// The values of a list of deployment records, in order.
pub open spec fn deployments_view(rows: Seq<DeploymentRecord>) -> Seq<DeploymentView> {
    rows.map_values(|r: DeploymentRecord| r@)
}

/// The values of a list of error records, in order.
pub open spec fn errors_view(rows: Seq<ErrorRecord>) -> Seq<ErrorView> {
    rows.map_values(|r: ErrorRecord| r@)
}

/// The values of a list of manifest records, in order.
pub open spec fn manifests_view(rows: Seq<ManifestRecord>) -> Seq<ManifestView> {
    rows.map_values(|r: ManifestRecord| r@)
}

/// The values of a list of data source records, in order.
pub open spec fn data_sources_view(rows: Seq<DataSourceRecord>) -> Seq<DataSourceView> {
    rows.map_values(|r: DataSourceRecord| r@)
}

impl View for Store {
    type V = StoreView;

    open spec fn view(&self) -> StoreView {
        StoreView {
            deployments: deployments_view(self.deployments@),
            errors: errors_view(self.errors@),
            manifests: manifests_view(self.manifests@),
            data_sources: data_sources_view(self.data_sources@),
            layouts: texts(self.layouts@),
        }
    }
}

/// The test that a deployment record is about the deployment `id`.
pub open spec fn deployment_is(id: Seq<char>) -> spec_fn(DeploymentView) -> bool {
    |r: DeploymentView| r.id == id
}

/// The test that a manifest has the id `id`.
pub open spec fn manifest_is(id: Seq<char>) -> spec_fn(ManifestView) -> bool {
    |r: ManifestView| r.id == id
}

/// The test that a data source has the id `id`.
pub open spec fn data_source_is(id: Seq<char>) -> spec_fn(DataSourceView) -> bool {
    |r: DataSourceView| r.id == id
}

impl StoreView {
    /// The tables with `rows` in place of the deployment records.
    pub open spec fn with_deployments(self, rows: Seq<DeploymentView>) -> StoreView {
        StoreView { deployments: rows, ..self }
    }

    /// The first record of the deployment `id`, if there is one.
    pub open spec fn deployment(self, id: Seq<char>) -> Option<DeploymentView> {
        first_row(self.deployments, deployment_is(id))
    }

    /// The first manifest with the id `id`, if there is one.
    pub open spec fn manifest(self, id: Seq<char>) -> Option<ManifestView> {
        first_row(self.manifests, manifest_is(id))
    }

    /// The first data source with the id `id`, if there is one.
    pub open spec fn data_source(self, id: Seq<char>) -> Option<DataSourceView> {
        first_row(self.data_sources, data_source_is(id))
    }
}

impl Store {
    /// A shard without any records.
    pub fn new() -> (r: Store)
        ensures
            r@ == (StoreView {
                deployments: Seq::empty(),
                errors: Seq::empty(),
                manifests: Seq::empty(),
                data_sources: Seq::empty(),
                layouts: Seq::empty(),
            }),
    {
        let store = Store {
            deployments: Vec::new(),
            errors: Vec::new(),
            manifests: Vec::new(),
            data_sources: Vec::new(),
            layouts: Vec::new(),
        };
        assert(store@.deployments =~= Seq::empty());
        assert(store@.errors =~= Seq::empty());
        assert(store@.manifests =~= Seq::empty());
        assert(store@.data_sources =~= Seq::empty());
        assert(store@.layouts =~= Seq::empty());
        store
    }

    /// The index of the first record of the deployment `id`.
    pub fn find_deployment(&self, id: &str) -> (r: Option<usize>)
        ensures
            match r {
                Some(i) => i < self.deployments@.len() && is_first(
                    self@.deployments,
                    deployment_is(id@),
                    i as int,
                ) && self@.deployment(id@) == Some(self.deployments@[i as int]@),
                None => self@.deployment(id@) is None && !any_row(
                    self@.deployments,
                    deployment_is(id@),
                ),
            },
    {
        let ghost p = deployment_is(id@);
        let key = id.to_owned();
        let mut i: usize = 0;
        while i < self.deployments.len()
            invariant
                i <= self.deployments@.len(),
                key@ == id@,
                p == deployment_is(id@),
                forall|j: int| 0 <= j < i ==> !p(#[trigger] self@.deployments[j]),
            decreases self.deployments.len() - i,
        {
            if self.deployments[i].id == key {
                proof {
                    lemma_first_found(self@.deployments, p, i as int);
                }
                return Some(i);
            }
            i = i + 1;
        }
        proof {
            lemma_first_absent(self@.deployments, p);
        }
        None
    }

    /// The index of the first manifest with the id `id`.
    pub fn find_manifest(&self, id: &str) -> (r: Option<usize>)
        ensures
            match r {
                Some(i) => i < self.manifests@.len() && is_first(
                    self@.manifests,
                    manifest_is(id@),
                    i as int,
                ) && self@.manifest(id@) == Some(self.manifests@[i as int]@),
                None => self@.manifest(id@) is None && !any_row(self@.manifests, manifest_is(id@)),
            },
    {
        let ghost p = manifest_is(id@);
        let key = id.to_owned();
        let mut i: usize = 0;
        while i < self.manifests.len()
            invariant
                i <= self.manifests@.len(),
                key@ == id@,
                p == manifest_is(id@),
                forall|j: int| 0 <= j < i ==> !p(#[trigger] self@.manifests[j]),
            decreases self.manifests.len() - i,
        {
            if self.manifests[i].id == key {
                proof {
                    lemma_first_found(self@.manifests, p, i as int);
                }
                return Some(i);
            }
            i = i + 1;
        }
        proof {
            lemma_first_absent(self@.manifests, p);
        }
        None
    }

    /// The index of the first data source with the id `id`.
    pub fn find_data_source(&self, id: &str) -> (r: Option<usize>)
        ensures
            match r {
                Some(i) => i < self.data_sources@.len() && is_first(
                    self@.data_sources,
                    data_source_is(id@),
                    i as int,
                ) && self@.data_source(id@) == Some(self.data_sources@[i as int]@),
                None => self@.data_source(id@) is None && !any_row(
                    self@.data_sources,
                    data_source_is(id@),
                ),
            },
    {
        let ghost p = data_source_is(id@);
        let key = id.to_owned();
        let mut i: usize = 0;
        while i < self.data_sources.len()
            invariant
                i <= self.data_sources@.len(),
                key@ == id@,
                p == data_source_is(id@),
                forall|j: int| 0 <= j < i ==> !p(#[trigger] self@.data_sources[j]),
            decreases self.data_sources.len() - i,
        {
            if self.data_sources[i].id == key {
                proof {
                    lemma_first_found(self@.data_sources, p, i as int);
                }
                return Some(i);
            }
            i = i + 1;
        }
        proof {
            lemma_first_absent(self@.data_sources, p);
        }
        None
    }
}

} // verus!
