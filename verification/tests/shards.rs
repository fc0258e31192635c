use subgraph_store::error::ErrorKind;
use subgraph_store::ids::SubgraphDeploymentId;
use subgraph_store::metadata::{EntityKey, EntityModification, MetadataOperation, MetadataType};
use subgraph_store::shard_data::{require_single_shard, ShardData};

fn did(s: &str) -> SubgraphDeploymentId {
    SubgraphDeploymentId::new(s).unwrap()
}

fn write(entity: MetadataType, deployment: &str) -> MetadataOperation {
    MetadataOperation::Write {
        entity,
        deployment: did(deployment),
        id: format!("{}-entity", deployment),
    }
}

fn data(deployment: &str, entity_type: &str) -> EntityModification {
    EntityModification::Insert {
        key: EntityKey {
            subgraph_id: did(deployment),
            entity_type: entity_type.to_string(),
            entity_id: "1".to_string(),
        },
    }
}

fn all_types() -> Vec<MetadataType> {
    vec![
        MetadataType::Subgraph,
        MetadataType::SubgraphVersion,
        MetadataType::SubgraphDeploymentAssignment,
        MetadataType::SubgraphDeployment,
        MetadataType::SubgraphManifest,
        MetadataType::EthereumContractDataSource,
        MetadataType::DynamicEthereumContractDataSource,
        MetadataType::EthereumContractSource,
        MetadataType::EthereumContractMapping,
        MetadataType::EthereumContractAbi,
        MetadataType::EthereumBlockHandlerEntity,
        MetadataType::EthereumBlockHandlerFilterEntity,
        MetadataType::EthereumCallHandlerEntity,
        MetadataType::EthereumContractEventHandler,
        MetadataType::EthereumContractDataSourceTemplate,
        MetadataType::EthereumContractDataSourceTemplateSource,
        MetadataType::SubgraphError,
    ]
}

#[test]
fn metadata_type_names_round_trip() {
    for typ in all_types() {
        assert_eq!(Ok(typ), MetadataType::from_str(typ.as_str()));
        assert_eq!(typ.as_str(), typ.to_string());
    }
    assert_eq!("SubgraphDeploymentAssignment", MetadataType::SubgraphDeploymentAssignment.as_str());
    assert_eq!("SubgraphError", MetadataType::SubgraphError.as_str());
    assert_eq!(Err(()), MetadataType::from_str("User"));
    assert_eq!(Err(()), MetadataType::from_str("subgraph"));
    assert_eq!(Err(()), MetadataType::from_str(""));
    assert_eq!(Err(()), MetadataType::from_str("SubgraphDeploymentX"));
}

#[test]
fn metadata_types_are_partitioned() {
    let target = did("abc");
    let primary_only = [
        MetadataType::Subgraph,
        MetadataType::SubgraphVersion,
        MetadataType::SubgraphDeploymentAssignment,
    ];
    for typ in all_types() {
        let primary = primary_only.contains(&typ);
        assert_eq!(primary, typ.is_primary());
        assert_eq!(!primary, typ.in_shard(&target));
    }
}

#[test]
fn metadata_operation_lies_with_the_deployment_it_describes() {
    let target = did("abc");
    assert!(write(MetadataType::SubgraphDeployment, "abc").in_shard(&target));
    assert!(!write(MetadataType::SubgraphDeployment, "other").in_shard(&target));
    assert!(!write(MetadataType::Subgraph, "abc").in_shard(&target));
    assert!(write(MetadataType::Subgraph, "abc").is_primary());
    assert!(write(MetadataType::Subgraph, "other").is_primary());
    assert!(!write(MetadataType::SubgraphManifest, "abc").is_primary());

    let remove = MetadataOperation::Remove {
        entity: MetadataType::SubgraphError,
        deployment: did("abc"),
        id: "e".to_string(),
    };
    let update = MetadataOperation::Update {
        entity: MetadataType::SubgraphDeploymentAssignment,
        deployment: did("abc"),
        id: "abc".to_string(),
    };
    assert!(remove.in_shard(&target));
    assert!(!update.in_shard(&target));
    assert!(update.is_primary());
    assert_eq!(MetadataType::SubgraphError, remove.entity());
    assert_eq!(&did("abc"), remove.deployment());
    assert_eq!("e", remove.id());
}

#[test]
fn entity_modification_placement() {
    let target = did("abc");
    assert!(data("abc", "User").in_shard(&target));
    assert!(!data("other", "User").in_shard(&target));
    assert!(!data("abc", "User").is_primary());

    // metadata entities belong to the deployment `subgraphs`
    assert!(data("subgraphs", "SubgraphDeployment").in_shard(&target));
    assert!(!data("subgraphs", "SubgraphDeployment").is_primary());
    assert!(!data("subgraphs", "Subgraph").in_shard(&target));
    assert!(data("subgraphs", "Subgraph").is_primary());
    assert!(data("subgraphs", "SubgraphVersion").is_primary());

    // a type that names no kind of metadata lies in no known place
    assert!(!data("subgraphs", "Unheard").in_shard(&target));
    assert!(!data("subgraphs", "Unheard").is_primary());

    let key = EntityKey {
        subgraph_id: did("abc"),
        entity_type: "User".to_string(),
        entity_id: "7".to_string(),
    };
    let remove = EntityModification::Remove {
        key: EntityKey {
            subgraph_id: did("abc"),
            entity_type: "User".to_string(),
            entity_id: "7".to_string(),
        },
    };
    assert_eq!(&key, remove.entity_key());
}

#[test]
fn batch_with_primary_and_data_type_for_same_deployment_is_accepted() {
    let target = did("abc");
    let batch = vec![
        write(MetadataType::SubgraphDeploymentAssignment, "abc"),
        write(MetadataType::SubgraphDeployment, "abc"),
    ];
    assert_eq!(Ok(()), require_single_shard(&batch, &target));
    // as a whole the batch neither lies with the deployment nor in the primary
    assert!(!batch.in_shard(&target));
    assert!(!batch.is_primary());
}

#[test]
fn batch_with_data_type_for_a_different_deployment_is_rejected() {
    let target = did("abc");
    let batch = vec![
        write(MetadataType::SubgraphDeploymentAssignment, "abc"),
        write(MetadataType::SubgraphDeployment, "other"),
    ];
    let err = require_single_shard(&batch, &target).unwrap_err();
    assert_eq!(ErrorKind::CrossShardContractViolation, err.kind());

    let batch = vec![write(MetadataType::SubgraphManifest, "other")];
    let err = require_single_shard(&batch, &target).unwrap_err();
    assert_eq!(ErrorKind::CrossShardContractViolation, err.kind());
}

#[test]
fn batches_of_entity_modifications() {
    let target = did("abc");
    let good = vec![
        data("abc", "User"),
        data("subgraphs", "Subgraph"),
        data("subgraphs", "SubgraphManifest"),
    ];
    assert_eq!(Ok(()), require_single_shard(&good, &target));

    let other = vec![data("abc", "User"), data("other", "User")];
    assert_eq!(
        ErrorKind::CrossShardContractViolation,
        require_single_shard(&other, &target).unwrap_err().kind()
    );

    let unheard = vec![data("subgraphs", "Unheard")];
    assert_eq!(
        ErrorKind::CrossShardContractViolation,
        require_single_shard(&unheard, &target).unwrap_err().kind()
    );

    let empty: Vec<EntityModification> = vec![];
    assert_eq!(Ok(()), require_single_shard(&empty, &target));
    assert!(empty.in_shard(&target));

    let same = vec![data("abc", "User"), data("abc", "Post")];
    assert!(same.in_shard(&target));
    assert!(!same.in_shard(&did("other")));
}
