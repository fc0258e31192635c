//! The kinds of metadata entities, and the operations that write entities.

use crate::ids::SubgraphDeploymentId;
use vstd::prelude::*;

verus! {

/// Whether two strings hold the same characters.
pub fn str_eq(a: &str, b: &str) -> (r: bool)
    ensures
        r == (a@ == b@),
{
    let x = a.to_owned();
    let y = b.to_owned();
    x == y
}

/// The kinds of metadata entities. Each kind is either kept in the primary
/// shard only, or kept in the shard that holds the data of the deployment it
/// describes.
#[derive(Debug, Clone, Copy, PartialEq, Eq, Hash, Structural)]
pub enum MetadataType {
    /// A subgraph name and the versions it points to.
    Subgraph,
    /// One version of a subgraph name.
    SubgraphVersion,
    /// The assignment of a deployment to a node.
    SubgraphDeploymentAssignment,
    /// The record of a deployment.
    SubgraphDeployment,
    /// The manifest of a deployment.
    SubgraphManifest,
    EthereumContractDataSource,
    DynamicEthereumContractDataSource,
    EthereumContractSource,
    EthereumContractMapping,
    EthereumContractAbi,
    EthereumBlockHandlerEntity,
    EthereumBlockHandlerFilterEntity,
    EthereumCallHandlerEntity,
    EthereumContractEventHandler,
    EthereumContractDataSourceTemplate,
    EthereumContractDataSourceTemplateSource,
    /// An error recorded for a deployment.
    SubgraphError,
}

impl MetadataType {
    /// The name of the kind, as it appears in entity keys and changes.
    pub open spec fn name(self) -> Seq<char> {
        match self {
            MetadataType::Subgraph => "Subgraph"@,
            MetadataType::SubgraphVersion => "SubgraphVersion"@,
            MetadataType::SubgraphDeploymentAssignment => "SubgraphDeploymentAssignment"@,
            MetadataType::SubgraphDeployment => "SubgraphDeployment"@,
            MetadataType::SubgraphManifest => "SubgraphManifest"@,
            MetadataType::EthereumContractDataSource => "EthereumContractDataSource"@,
            MetadataType::DynamicEthereumContractDataSource => "DynamicEthereumContractDataSource"@,
            MetadataType::EthereumContractSource => "EthereumContractSource"@,
            MetadataType::EthereumContractMapping => "EthereumContractMapping"@,
            MetadataType::EthereumContractAbi => "EthereumContractAbi"@,
            MetadataType::EthereumBlockHandlerEntity => "EthereumBlockHandlerEntity"@,
            MetadataType::EthereumBlockHandlerFilterEntity => "EthereumBlockHandlerFilterEntity"@,
            MetadataType::EthereumCallHandlerEntity => "EthereumCallHandlerEntity"@,
            MetadataType::EthereumContractEventHandler => "EthereumContractEventHandler"@,
            MetadataType::EthereumContractDataSourceTemplate => "EthereumContractDataSourceTemplate"@,
            MetadataType::EthereumContractDataSourceTemplateSource => "EthereumContractDataSourceTemplateSource"@,
            MetadataType::SubgraphError => "SubgraphError"@,
        }
    }

    /// Whether entities of this kind are kept in the primary shard only.
    pub open spec fn primary_only(self) -> bool {
        self == MetadataType::Subgraph || self == MetadataType::SubgraphVersion || self
            == MetadataType::SubgraphDeploymentAssignment
    }

    /// The name of the kind.
    pub fn as_str(&self) -> (r: &'static str)
        ensures
            r@ == self.name(),
    {
        match self {
            MetadataType::Subgraph => "Subgraph",
            MetadataType::SubgraphVersion => "SubgraphVersion",
            MetadataType::SubgraphDeploymentAssignment => "SubgraphDeploymentAssignment",
            MetadataType::SubgraphDeployment => "SubgraphDeployment",
            MetadataType::SubgraphManifest => "SubgraphManifest",
            MetadataType::EthereumContractDataSource => "EthereumContractDataSource",
            MetadataType::DynamicEthereumContractDataSource => "DynamicEthereumContractDataSource",
            MetadataType::EthereumContractSource => "EthereumContractSource",
            MetadataType::EthereumContractMapping => "EthereumContractMapping",
            MetadataType::EthereumContractAbi => "EthereumContractAbi",
            MetadataType::EthereumBlockHandlerEntity => "EthereumBlockHandlerEntity",
            MetadataType::EthereumBlockHandlerFilterEntity => "EthereumBlockHandlerFilterEntity",
            MetadataType::EthereumCallHandlerEntity => "EthereumCallHandlerEntity",
            MetadataType::EthereumContractEventHandler => "EthereumContractEventHandler",
            MetadataType::EthereumContractDataSourceTemplate => "EthereumContractDataSourceTemplate",
            MetadataType::EthereumContractDataSourceTemplateSource => "EthereumContractDataSourceTemplateSource",
            MetadataType::SubgraphError => "SubgraphError",
        }
    }

    /// The name of the kind in a string of its own.
    pub fn to_string(&self) -> (r: String)
        ensures
            r@ == self.name(),
    {
        self.as_str().to_owned()
    }

    /// The kind named `s`; an error where no kind has that name.
    pub fn from_str(s: &str) -> (r: Result<MetadataType, ()>)
        ensures
            match r {
                Ok(t) => metadata_type_named(s@) == Some(t),
                Err(_) => metadata_type_named(s@) is None,
            },
    {
        let r = Self::lookup(s);
        proof {
            match r {
                Ok(t) => {
                    let u = choose|u: MetadataType| #[trigger] u.name() == s@;
                    lemma_metadata_type_names(t, u);
                },
                Err(_) => {},
            }
        }
        r
    }

    fn lookup(s: &str) -> (r: Result<MetadataType, ()>)
        ensures
            match r {
                Ok(t) => t.name() == s@,
                Err(_) => forall|t: MetadataType| #[trigger] t.name() != s@,
            },
    {
        if str_eq(s, "Subgraph") {
            Ok(MetadataType::Subgraph)
        } else if str_eq(s, "SubgraphVersion") {
            Ok(MetadataType::SubgraphVersion)
        } else if str_eq(s, "SubgraphDeploymentAssignment") {
            Ok(MetadataType::SubgraphDeploymentAssignment)
        } else if str_eq(s, "SubgraphDeployment") {
            Ok(MetadataType::SubgraphDeployment)
        } else if str_eq(s, "SubgraphManifest") {
            Ok(MetadataType::SubgraphManifest)
        } else if str_eq(s, "EthereumContractDataSource") {
            Ok(MetadataType::EthereumContractDataSource)
        } else if str_eq(s, "DynamicEthereumContractDataSource") {
            Ok(MetadataType::DynamicEthereumContractDataSource)
        } else if str_eq(s, "EthereumContractSource") {
            Ok(MetadataType::EthereumContractSource)
        } else if str_eq(s, "EthereumContractMapping") {
            Ok(MetadataType::EthereumContractMapping)
        } else if str_eq(s, "EthereumContractAbi") {
            Ok(MetadataType::EthereumContractAbi)
        } else if str_eq(s, "EthereumBlockHandlerEntity") {
            Ok(MetadataType::EthereumBlockHandlerEntity)
        } else if str_eq(s, "EthereumBlockHandlerFilterEntity") {
            Ok(MetadataType::EthereumBlockHandlerFilterEntity)
        } else if str_eq(s, "EthereumCallHandlerEntity") {
            Ok(MetadataType::EthereumCallHandlerEntity)
        } else if str_eq(s, "EthereumContractEventHandler") {
            Ok(MetadataType::EthereumContractEventHandler)
        } else if str_eq(s, "EthereumContractDataSourceTemplate") {
            Ok(MetadataType::EthereumContractDataSourceTemplate)
        } else if str_eq(s, "EthereumContractDataSourceTemplateSource") {
            Ok(MetadataType::EthereumContractDataSourceTemplateSource)
        } else if str_eq(s, "SubgraphError") {
            Ok(MetadataType::SubgraphError)
        } else {
            Err(())
        }
    }
}

/// The kind named `s`, if there is one.
pub open spec fn metadata_type_named(s: Seq<char>) -> Option<MetadataType> {
    if exists|t: MetadataType| #[trigger] t.name() == s {
        Some(choose|t: MetadataType| #[trigger] t.name() == s)
    } else {
        None
    }
}

/// Different kinds have different names, so the name of a kind names that
/// kind and no other.
pub proof fn lemma_metadata_type_names(a: MetadataType, b: MetadataType)
    ensures
        a.name() == b.name() ==> a == b,
        metadata_type_named(a.name()) == Some(a),
{
    lemma_names_differ(a, b);
    let c = choose|t: MetadataType| #[trigger] t.name() == a.name();
    lemma_names_differ(a, c);
}

proof fn lemma_names_differ(a: MetadataType, b: MetadataType)
    ensures
        a.name() == b.name() ==> a == b,
{
    reveal_strlit("Subgraph");
    reveal_strlit("SubgraphVersion");
    reveal_strlit("SubgraphDeploymentAssignment");
    reveal_strlit("SubgraphDeployment");
    reveal_strlit("SubgraphManifest");
    reveal_strlit("EthereumContractDataSource");
    reveal_strlit("DynamicEthereumContractDataSource");
    reveal_strlit("EthereumContractSource");
    reveal_strlit("EthereumContractMapping");
    reveal_strlit("EthereumContractAbi");
    reveal_strlit("EthereumBlockHandlerEntity");
    reveal_strlit("EthereumBlockHandlerFilterEntity");
    reveal_strlit("EthereumCallHandlerEntity");
    reveal_strlit("EthereumContractEventHandler");
    reveal_strlit("EthereumContractDataSourceTemplate");
    reveal_strlit("EthereumContractDataSourceTemplateSource");
    reveal_strlit("SubgraphError");
    assert("EthereumContractDataSource"@[8] != "EthereumBlockHandlerEntity"@[8]);
    assert("SubgraphDeploymentAssignment"@[0] != "EthereumContractEventHandler"@[0]);
    assert("SubgraphVersion"@.len() == 15);
    assert("SubgraphDeploymentAssignment"@.len() == 28);
    assert("SubgraphDeployment"@.len() == 18);
    assert("SubgraphManifest"@.len() == 16);
    assert("EthereumContractDataSource"@.len() == 26);
    assert("DynamicEthereumContractDataSource"@.len() == 33);
    assert("EthereumContractSource"@.len() == 22);
    assert("EthereumContractMapping"@.len() == 23);
    assert("EthereumContractAbi"@.len() == 19);
    assert("EthereumBlockHandlerEntity"@.len() == 26);
    assert("EthereumBlockHandlerFilterEntity"@.len() == 32);
    assert("EthereumCallHandlerEntity"@.len() == 25);
    assert("EthereumContractDataSourceTemplate"@.len() == 34);
    assert("EthereumContractDataSourceTemplateSource"@.len() == 40);
    assert("SubgraphError"@.len() == 13);
}

/// What identifies an entity: the deployment it belongs to, its type and its
/// id. Metadata entities belong to the metadata deployment.
#[derive(Debug, PartialEq, Eq, Hash)]
pub struct EntityKey {
    pub subgraph_id: SubgraphDeploymentId,
    pub entity_type: String,
    pub entity_id: String,
}

/// The mathematical value of an entity key.
pub struct EntityKeyView {
    pub subgraph_id: Seq<char>,
    pub entity_type: Seq<char>,
    pub entity_id: Seq<char>,
}

impl View for EntityKey {
    type V = EntityKeyView;

    open spec fn view(&self) -> EntityKeyView {
        EntityKeyView {
            subgraph_id: self.subgraph_id@,
            entity_type: self.entity_type@,
            entity_id: self.entity_id@,
        }
    }
}

/// A write to an entity of a deployment, as part of the processing of a
/// block.
#[derive(Debug, PartialEq, Eq)]
pub enum EntityModification {
    /// Insert the entity.
    Insert { key: EntityKey },
    /// Update the entity by overwriting it.
    Overwrite { key: EntityKey },
    /// Remove the entity.
    Remove { key: EntityKey },
}

impl EntityModification {
    /// The key of the entity that is written.
    pub open spec fn spec_entity_key(&self) -> EntityKey {
        match self {
            EntityModification::Insert { key } => *key,
            EntityModification::Overwrite { key } => *key,
            EntityModification::Remove { key } => *key,
        }
    }

    /// The key of the entity that is written.
    pub fn entity_key(&self) -> (r: &EntityKey)
        ensures
            *r == self.spec_entity_key(),
    {
        match self {
            EntityModification::Insert { key } => key,
            EntityModification::Overwrite { key } => key,
            EntityModification::Remove { key } => key,
        }
    }
}

/// A write to a metadata entity that describes `deployment`.
#[derive(Debug, PartialEq, Eq)]
pub enum MetadataOperation {
    /// Create the entity or overwrite it.
    Write { entity: MetadataType, deployment: SubgraphDeploymentId, id: String },
    /// Remove the entity.
    Remove { entity: MetadataType, deployment: SubgraphDeploymentId, id: String },
    /// Change some attributes of the entity.
    Update { entity: MetadataType, deployment: SubgraphDeploymentId, id: String },
}

impl MetadataOperation {
    /// The kind of the entity that is written.
    pub open spec fn spec_entity(&self) -> MetadataType {
        match self {
            MetadataOperation::Write { entity, .. } => *entity,
            MetadataOperation::Remove { entity, .. } => *entity,
            MetadataOperation::Update { entity, .. } => *entity,
        }
    }

    /// The deployment that the entity describes.
    pub open spec fn spec_deployment(&self) -> SubgraphDeploymentId {
        match self {
            MetadataOperation::Write { deployment, .. } => *deployment,
            MetadataOperation::Remove { deployment, .. } => *deployment,
            MetadataOperation::Update { deployment, .. } => *deployment,
        }
    }

    /// The id of the entity that is written.
    pub open spec fn spec_id(&self) -> String {
        match self {
            MetadataOperation::Write { id, .. } => *id,
            MetadataOperation::Remove { id, .. } => *id,
            MetadataOperation::Update { id, .. } => *id,
        }
    }

    /// The kind of the entity that is written.
    #[verifier::when_used_as_spec(spec_entity)]
    pub fn entity(&self) -> (r: MetadataType)
        ensures
            r == self.spec_entity(),
    {
        match self {
            MetadataOperation::Write { entity, .. } => *entity,
            MetadataOperation::Remove { entity, .. } => *entity,
            MetadataOperation::Update { entity, .. } => *entity,
        }
    }

    /// The deployment that the entity describes.
    pub fn deployment(&self) -> (r: &SubgraphDeploymentId)
        ensures
            *r == self.spec_deployment(),
    {
        match self {
            MetadataOperation::Write { deployment, .. } => deployment,
            MetadataOperation::Remove { deployment, .. } => deployment,
            MetadataOperation::Update { deployment, .. } => deployment,
        }
    }

    /// The id of the entity that is written.
    pub fn id(&self) -> (r: &String)
        ensures
            *r == self.spec_id(),
    {
        match self {
            MetadataOperation::Write { id, .. } => id,
            MetadataOperation::Remove { id, .. } => id,
            MetadataOperation::Update { id, .. } => id,
        }
    }
}

} // verus!
