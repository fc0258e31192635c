//! A view of the store for answering queries against one deployment.

use crate::deployment::{
    exists_and_synced, is_synced, missing_manifest_message, network, network_message, network_of,
    schema, schema_of, state, state_message, state_of, DeploymentState, SchemaSource,
};
use crate::error::{yields, StoreError};
use crate::ids::SubgraphDeploymentId;
use crate::primary::SiteRecord;
use crate::records::{text, Store};
use vstd::prelude::*;

verus! {

/// Which copy of a shard a query reads.
#[derive(Debug, Clone, Copy, PartialEq, Eq)]
pub enum ReplicaId {
    /// The copy that is written to.
    Main,
    /// A copy that is only read.
    ReadOnly(usize),
}

/// What queries against one deployment read: the shard of the deployment,
/// and which copy of it.
pub struct QueryStore<'a> {
    site: SiteRecord,
    replica_id: ReplicaId,
    store: &'a Store,
    for_subscription: bool,
}

impl<'a> QueryStore<'a> {
    /// The deployment that queries are answered for.
    pub closed spec fn deployment(&self) -> Seq<char> {
        self.site.deployment@
    }

    /// The tables that queries read.
    pub closed spec fn tables(&self) -> Store {
        *self.store
    }

    /// Whether subscriptions may be made: the store was asked for with
    /// that purpose, and it reads the copy that is written to.
    pub closed spec fn subscribable(&self) -> bool {
        self.for_subscription && self.replica_id == ReplicaId::Main
    }

    /// A store for queries against the deployment of `site`, reading
    /// `store`.
    pub fn new(store: &'a Store, for_subscription: bool, site: SiteRecord, replica_id: ReplicaId) -> (r:
        QueryStore<'a>)
        ensures
            r.deployment() == site.deployment@,
            r.tables() == *store,
            r.subscribable() == (for_subscription && replica_id == ReplicaId::Main),
    {
        QueryStore { site, replica_id, store, for_subscription }
    }

    /// Whether `id` is the deployment that queries are answered for.
    pub fn serves(&self, id: &SubgraphDeploymentId) -> (r: bool)
        ensures
            r == (id@ == self.deployment()),
    {
        self.site.deployment.same(id)
    }

    /// Whether subscriptions may be made through this store.
    pub fn can_subscribe(&self) -> (r: bool)
        ensures
            r == self.subscribable(),
    {
        self.for_subscription && match self.replica_id {
            ReplicaId::Main => true,
            ReplicaId::ReadOnly(_) => false,
        }
    }

    /// Whether the deployment `id`, which must be the one that queries are
    /// answered for, is fully synced.
    pub fn is_deployment_synced(&self, id: SubgraphDeploymentId) -> (r: Result<bool, StoreError>)
        requires
            id@ == self.deployment(),
        ensures
            r == Ok::<bool, StoreError>(is_synced(self.tables()@.deployments, id@)),
    {
        exists_and_synced(self.store, id.as_str())
    }

    /// The state of the deployment.
    pub fn deployment_state(&self) -> (r: Result<DeploymentState, StoreError>)
        ensures
            yields(r, state_of(self.tables()@.deployments, self.deployment())),
            r matches Err(e) ==> e.spec_message() == state_message(
                self.tables()@.deployments,
                self.deployment(),
            ),
    {
        state(self.store, self.site.deployment.clone())
    }

    /// The schema of the deployment.
    pub fn api_schema(&self) -> (r: Result<SchemaSource, StoreError>)
        ensures
            yields(r, schema_of(self.tables()@, self.deployment())),
            r matches Err(e) ==> e.spec_message() == missing_manifest_message(self.deployment()),
    {
        schema(self.store, self.site.deployment.clone())
    }

    /// The network that the deployment indexes.
    pub fn network_name(&self) -> (r: Result<Option<String>, StoreError>)
        ensures
            match network_of(self.tables()@, self.deployment()) {
                Ok(name) => r is Ok && text(r->Ok_0) == name,
                Err(k) => r is Err && r->Err_0.spec_kind() == k && r->Err_0.spec_message()
                    == network_message(self.tables()@, self.deployment()),
            },
    {
        network(self.store, &self.site.deployment)
    }
}

} // verus!
