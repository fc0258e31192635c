//! Where an operation belongs: in the primary shard, or in the shard that
//! holds the data of a deployment. A batch of operations must never
//! straddle shards, because two shards do not commit together.

use crate::error::{ErrorKind, StoreError};
use crate::ids::{meta_id, SubgraphDeploymentId};
use crate::metadata::{metadata_type_named, EntityModification, MetadataOperation, MetadataType};
use vstd::prelude::*;

verus! {

/// What can be asked where it belongs.
pub trait ShardData {
    /// Whether this object lies in the shard that holds the data of the
    /// deployment `id`.
    spec fn lies_with(&self, id: Seq<char>) -> bool;

    /// Whether this object lies in the primary shard whatever deployment it
    /// is about.
    spec fn primary_scoped(&self) -> bool;

    /// Whether this object lies in the shard that holds the data of the
    /// deployment `id`.
    fn in_shard(&self, id: &SubgraphDeploymentId) -> (r: bool)
        ensures
            r == self.lies_with(id@),
    ;

    /// Whether this object lies in the primary shard whatever deployment it
    /// is about.
    fn is_primary(&self) -> (r: bool)
        ensures
            r == self.primary_scoped(),
    ;
}

impl ShardData for MetadataType {
    /// Entities of a kind lie with the deployment they describe unless the
    /// kind is kept in the primary only.
    open spec fn lies_with(&self, id: Seq<char>) -> bool {
        !self.primary_only()
    }

    open spec fn primary_scoped(&self) -> bool {
        self.primary_only()
    }

    fn in_shard(&self, _id: &SubgraphDeploymentId) -> (r: bool) {
        match self {
            MetadataType::Subgraph
            | MetadataType::SubgraphVersion
            | MetadataType::SubgraphDeploymentAssignment => false,
            MetadataType::SubgraphDeployment
            | MetadataType::SubgraphManifest
            | MetadataType::EthereumContractDataSource
            | MetadataType::DynamicEthereumContractDataSource
            | MetadataType::EthereumContractSource
            | MetadataType::EthereumContractMapping
            | MetadataType::EthereumContractAbi
            | MetadataType::EthereumBlockHandlerEntity
            | MetadataType::EthereumBlockHandlerFilterEntity
            | MetadataType::EthereumCallHandlerEntity
            | MetadataType::EthereumContractEventHandler
            | MetadataType::EthereumContractDataSourceTemplate
            | MetadataType::EthereumContractDataSourceTemplateSource
            | MetadataType::SubgraphError => true,
        }
    }

    fn is_primary(&self) -> (r: bool) {
        match self {
            MetadataType::Subgraph
            | MetadataType::SubgraphVersion
            | MetadataType::SubgraphDeploymentAssignment => true,
            MetadataType::SubgraphDeployment
            | MetadataType::SubgraphManifest
            | MetadataType::EthereumContractDataSource
            | MetadataType::DynamicEthereumContractDataSource
            | MetadataType::EthereumContractSource
            | MetadataType::EthereumContractMapping
            | MetadataType::EthereumContractAbi
            | MetadataType::EthereumBlockHandlerEntity
            | MetadataType::EthereumBlockHandlerFilterEntity
            | MetadataType::EthereumCallHandlerEntity
            | MetadataType::EthereumContractEventHandler
            | MetadataType::EthereumContractDataSourceTemplate
            | MetadataType::EthereumContractDataSourceTemplateSource
            | MetadataType::SubgraphError => false,
        }
    }
}

impl ShardData for MetadataOperation {
    /// A write to a metadata entity lies with the deployment `id` where the
    /// kind of the entity lies with deployments and the entity describes
    /// `id`.
    open spec fn lies_with(&self, id: Seq<char>) -> bool {
        self.spec_entity().lies_with(id) && self.spec_deployment()@ == id
    }

    open spec fn primary_scoped(&self) -> bool {
        self.spec_entity().primary_scoped()
    }

    fn in_shard(&self, id: &SubgraphDeploymentId) -> (r: bool) {
        self.entity().in_shard(id) && self.deployment().same(id)
    }

    fn is_primary(&self) -> (r: bool) {
        self.entity().is_primary()
    }
}

impl ShardData for EntityModification {
    /// A write to an entity of a deployment lies with that deployment. A
    /// write to a metadata entity lies where the kind of the entity says;
    /// where the type of the entity names no kind of metadata, the write
    /// lies in no known place.
    open spec fn lies_with(&self, id: Seq<char>) -> bool {
        let key = self.spec_entity_key();
        if key.subgraph_id@ == meta_id() {
            match metadata_type_named(key.entity_type@) {
                Some(kind) => kind.lies_with(id),
                None => false,
            }
        } else {
            key.subgraph_id@ == id
        }
    }

    open spec fn primary_scoped(&self) -> bool {
        let key = self.spec_entity_key();
        key.subgraph_id@ == meta_id() && match metadata_type_named(key.entity_type@) {
            Some(kind) => kind.primary_scoped(),
            None => false,
        }
    }

    fn in_shard(&self, id: &SubgraphDeploymentId) -> (r: bool) {
        let key = self.entity_key();
        let mod_id = &key.subgraph_id;
        if mod_id.is_meta() {
            match MetadataType::from_str(key.entity_type.as_str()) {
                Ok(kind) => kind.in_shard(id),
                Err(_) => false,
            }
        } else {
            mod_id.same(id)
        }
    }

    fn is_primary(&self) -> (r: bool) {
        let key = self.entity_key();
        if key.subgraph_id.is_meta() {
            match MetadataType::from_str(key.entity_type.as_str()) {
                Ok(kind) => kind.is_primary(),
                Err(_) => false,
            }
        } else {
            false
        }
    }
}

impl<T: ShardData> ShardData for Vec<T> {
    /// A batch lies with a deployment where every one of its operations
    /// does.
    open spec fn lies_with(&self, id: Seq<char>) -> bool {
        forall|i: int| 0 <= i < self@.len() ==> (#[trigger] self@[i]).lies_with(id)
    }

    open spec fn primary_scoped(&self) -> bool {
        forall|i: int| 0 <= i < self@.len() ==> (#[trigger] self@[i]).primary_scoped()
    }

    fn in_shard(&self, id: &SubgraphDeploymentId) -> (r: bool) {
        let mut i: usize = 0;
        while i < self.len()
            invariant
                i <= self@.len(),
                forall|j: int| 0 <= j < i ==> (#[trigger] self@[j]).lies_with(id@),
            decreases self.len() - i,
        {
            if !self[i].in_shard(id) {
                return false;
            }
            i = i + 1;
        }
        true
    }

    fn is_primary(&self) -> (r: bool) {
        let mut i: usize = 0;
        while i < self.len()
            invariant
                i <= self@.len(),
                forall|j: int| 0 <= j < i ==> (#[trigger] self@[j]).primary_scoped(),
            decreases self.len() - i,
        {
            if !self[i].is_primary() {
                return false;
            }
            i = i + 1;
        }
        true
    }
}

/// Whether a batch of operations for the deployment `target` touches one
/// shard at a time: every operation either lies in the primary shard
/// whatever it is about, or lies in the shard of `target`.
pub open spec fn single_shard<T: ShardData>(operations: Seq<T>, target: Seq<char>) -> bool {
    forall|i: int|
        0 <= i < operations.len() ==> (#[trigger] operations[i]).primary_scoped()
            || operations[i].lies_with(target)
}

/// What is said of a batch for the deployment `target` that straddles
/// shards.
pub open spec fn straddling_message(target: Seq<char>) -> Seq<char> {
    "can only apply operations within the shard of deployment `"@ + target + "`"@
}

/// Checks that a batch of operations for the deployment `target` does not
/// straddle shards: the batch is refused where one of its operations
/// neither lies in the primary shard nor in the shard of `target`.
pub fn require_single_shard<T: ShardData>(operations: &Vec<T>, target: &SubgraphDeploymentId) -> (r:
    Result<(), StoreError>)
    ensures
        match r {
            Ok(_) => single_shard(operations@, target@),
            Err(e) => !single_shard(operations@, target@) && e.spec_kind()
                == ErrorKind::CrossShardContractViolation && e.spec_message()
                == straddling_message(target@),
        },
{
    let mut i: usize = 0;
    while i < operations.len()
        invariant
            i <= operations@.len(),
            forall|j: int|
                0 <= j < i ==> (#[trigger] operations@[j]).primary_scoped()
                    || operations@[j].lies_with(target@),
        decreases operations.len() - i,
    {
        if !operations[i].is_primary() && !operations[i].in_shard(target) {
            return Err(
                StoreError::CrossShardContractViolation(
                    crate::text::concat3(
                        "can only apply operations within the shard of deployment `",
                        target.as_str(),
                        "`",
                    ),
                ),
            );
        }
        i = i + 1;
    }
    Ok(())
}

} // verus!
