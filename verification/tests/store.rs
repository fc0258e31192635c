use subgraph_store::block::{BlockHash, EthereumBlockPointer};
use subgraph_store::deployment::{
    block_ptr_store_event, deployment_exists, exists_and_synced, graft_point, network,
    DeploymentState,
};
use subgraph_store::entity::{
    create_deployment, data_source_id, DataSource, Schema, SubgraphDeploymentEntity,
    SubgraphManifest,
};
use subgraph_store::text::{concat3, decimal_string, decimal_u64, signed_decimal_string};
use subgraph_store::error::ErrorKind;
use subgraph_store::event::{
    ChangeEventBus, EntityChange, EntityChangeOperation, EventTap, StoreEvent,
};
use subgraph_store::ids::{NodeId, SubgraphDeploymentId, SubgraphName};
use subgraph_store::metadata::{EntityKey, EntityModification, MetadataOperation, MetadataType};
use subgraph_store::primary::SubgraphVersionSwitchingMode::{Instant, Synced};
use subgraph_store::primary::{Primary, SiteRecord, SubgraphRecord, SubgraphVersionSwitchingMode};
use subgraph_store::records::{DeploymentRecord, ErrorRecord, Store, SubgraphHealth};
use subgraph_store::sharded_store::{shards_are_valid, Shard, ShardedStore, PRIMARY_SHARD};
use subgraph_store::status::{Filter, Info};

fn did(s: &str) -> SubgraphDeploymentId {
    SubgraphDeploymentId::new(s).unwrap()
}

fn name(s: &str) -> SubgraphName {
    SubgraphName::new(s).unwrap()
}

fn node(s: &str) -> NodeId {
    NodeId::new(s).unwrap()
}

fn ptr(byte: u8, number: u64) -> EthereumBlockPointer {
    EthereumBlockPointer::new(BlockHash([byte; 32]), number).unwrap()
}

fn shard(name: &str) -> Shard {
    Shard { name: name.to_string(), store: Store::new() }
}

fn three_shards() -> ShardedStore {
    ShardedStore::restore(
        Primary::new(),
        vec![shard("shard_a"), shard(PRIMARY_SHARD), shard("shard_b")],
        EventTap::Capturing(vec![]),
    )
}

fn schema_of(id: &str) -> Schema {
    Schema { id: did(id), document: format!("type T{} @entity {{ id: ID! }}", id) }
}

fn entity_of(id: &str, networks: Vec<Option<&str>>) -> SubgraphDeploymentEntity {
    let manifest = SubgraphManifest {
        id: did(id),
        schema: schema_of(id),
        data_sources: networks
            .into_iter()
            .enumerate()
            .map(|(i, n)| DataSource { name: format!("source{}", i), network: n.map(|s| s.to_string()) })
            .collect(),
        graft: None,
    };
    SubgraphDeploymentEntity::new(&manifest, false, None)
}

fn deploy_in(
    store: &mut ShardedStore,
    subgraph: &str,
    shard: &str,
    id: &str,
    mode: SubgraphVersionSwitchingMode,
) -> Result<(), subgraph_store::error::StoreError> {
    store.create_deployment_internal(
        name(subgraph),
        shard.to_string(),
        &schema_of(id),
        entity_of(id, vec![]),
        node("left"),
        mode,
        false,
    )
}

fn written(subgraph_id: &str, entity_type: &str, entity_id: &str) -> EntityChange {
    EntityChange {
        subgraph_id: did(subgraph_id),
        entity_type: entity_type.to_string(),
        entity_id: entity_id.to_string(),
        operation: EntityChangeOperation::Written,
    }
}

fn removed(subgraph_id: &str, entity_type: &str, entity_id: &str) -> EntityChange {
    EntityChange {
        subgraph_id: did(subgraph_id),
        entity_type: entity_type.to_string(),
        entity_id: entity_id.to_string(),
        operation: EntityChangeOperation::Removed,
    }
}

#[test]
fn shards_must_have_distinct_names_and_a_primary() {
    assert!(shards_are_valid(&vec![shard(PRIMARY_SHARD)]));
    assert!(shards_are_valid(&vec![shard("a"), shard(PRIMARY_SHARD), shard("b")]));
    assert!(!shards_are_valid(&vec![]));
    assert!(!shards_are_valid(&vec![shard("a"), shard("b")]));
    assert!(!shards_are_valid(&vec![shard(PRIMARY_SHARD), shard("a"), shard("a")]));
    assert!(!shards_are_valid(&vec![shard(PRIMARY_SHARD), shard(PRIMARY_SHARD)]));
    assert_eq!("primary", PRIMARY_SHARD);
}

#[test]
fn new_store_is_empty_and_records_nothing() {
    let mut store = ShardedStore::new(vec![shard(PRIMARY_SHARD), shard("other")]);
    assert_eq!(2, store.shard_count());
    assert_eq!(&Primary::new(), store.primary());
    assert_eq!(Some(&Store::new()), store.shard_store("other"));
    assert_eq!(None, store.shard_store("missing"));
    assert!(!store.bus().is_tapped());

    store.send_store_event(&StoreEvent::new(vec![])).unwrap();
    assert!(store.tapped_events().is_empty());
    assert_eq!(vec![StoreEvent::new(vec![])], store.drain_events());
}

#[test]
fn create_deployment_writes_records_in_the_named_shard() {
    let mut store = three_shards();
    deploy_in(&mut store, "a/name", "shard_b", "dep1", Instant).unwrap();

    assert_eq!(Ok("shard_b".to_string()), store.shard(&did("dep1")));
    assert_eq!(Ok("shard_b".to_string()), store.shard_of(&did("dep1")));
    let data = store.store(&did("dep1")).unwrap();
    assert_eq!(Ok(true), deployment_exists(data, "dep1"));
    assert_eq!(vec!["dep1".to_string()], data.layouts);
    assert_eq!(1, data.manifests.len());
    assert_eq!("dep1-manifest", data.manifests[0].id);
    assert_eq!(schema_of("dep1").document, data.manifests[0].schema);
    assert_eq!(&Store::new(), store.shard_store("shard_a").unwrap());
    assert_eq!(&Store::new(), store.shard_store(PRIMARY_SHARD).unwrap());

    let row = &data.deployments[0];
    assert_eq!("dep1", row.id);
    assert_eq!("dep1-manifest", row.manifest);
    assert_eq!(SubgraphHealth::Healthy, row.health);
    assert!(!row.failed && !row.synced);
    assert_eq!((0, 0, 0), (row.reorg_count, row.current_reorg_depth, row.max_reorg_depth));
    assert_eq!(None, row.latest_ethereum_block_number);
    assert_eq!(Ok(None), graft_point(data, &did("dep1")));

    let expected = vec![StoreEvent::new(vec![
        written("dep1", "SubgraphDeployment", "dep1"),
        written("dep1", "SubgraphManifest", "dep1-manifest"),
        written("dep1", "SubgraphDeploymentAssignment", "dep1"),
    ])];
    assert_eq!(expected, store.tapped_events());
    assert_eq!(expected, store.drain_events());
    assert_eq!(Ok(Some(node("left"))), store.assigned_node(&did("dep1")));
}

#[test]
fn create_deployment_in_an_unknown_shard_changes_nothing() {
    let mut store = three_shards();
    let err = deploy_in(&mut store, "a/name", "nowhere", "dep1", Instant).unwrap_err();
    assert_eq!(ErrorKind::UnknownShard, err.kind());
    assert_eq!(&Primary::new(), store.primary());
    assert_eq!(&Store::new(), store.shard_store("shard_a").unwrap());
    assert_eq!(&Store::new(), store.shard_store("shard_b").unwrap());
    assert_eq!(&Store::new(), store.shard_store(PRIMARY_SHARD).unwrap());
    assert!(store.tapped_events().is_empty());
    assert!(store.drain_events().is_empty());
}

#[test]
fn create_without_replace_leaves_an_existing_record_alone() {
    let mut store = three_shards();
    deploy_in(&mut store, "a/name", "shard_a", "dep1", Synced).unwrap();
    store.transact_block_operations(did("dep1"), ptr(1, 5), vec![]).unwrap();
    store.clear_tapped_events();

    deploy_in(&mut store, "a/name", "shard_a", "dep1", Synced).unwrap();
    assert_eq!(vec![StoreEvent::new(vec![])], store.tapped_events());
    let row = &store.store(&did("dep1")).unwrap().deployments[0];
    assert_eq!(Some(5), row.latest_ethereum_block_number);
    assert_eq!(vec!["dep1".to_string()], store.store(&did("dep1")).unwrap().layouts);
}

#[test]
fn create_with_replace_resets_the_record() {
    let mut store = three_shards();
    let deploy = |store: &mut ShardedStore| {
        store
            .create_deployment_replace(
                name("a/name"),
                &schema_of("dep1"),
                entity_of("dep1", vec![]),
                node("left"),
                Instant,
            )
            .unwrap()
    };
    deploy(&mut store);
    assert_eq!(Ok(PRIMARY_SHARD.to_string()), store.shard_of(&did("dep1")));
    store.transact_block_operations(did("dep1"), ptr(1, 5), vec![]).unwrap();
    store.deployment_synced(&did("dep1")).unwrap();
    store.clear_tapped_events();

    deploy(&mut store);
    let data = store.store(&did("dep1")).unwrap();
    assert_eq!(1, data.deployments.len());
    assert_eq!(None, data.deployments[0].latest_ethereum_block_number);
    assert!(!data.deployments[0].synced);
    assert_eq!(vec!["dep1".to_string()], data.layouts);
    // the records were written again; the name keeps pointing to dep1
    let expected = vec![StoreEvent::new(vec![
        written("dep1", "SubgraphDeployment", "dep1"),
        written("dep1", "SubgraphManifest", "dep1-manifest"),
    ])];
    assert_eq!(expected, store.tapped_events());
}

#[test]
fn failure_after_the_shard_wrote_leaves_primary_alone_and_can_be_repeated() {
    // the name points to a deployment whose placement the primary lost
    let mut primary = Primary::new();
    primary.subgraphs = vec![SubgraphRecord {
        name: name("a/name"),
        current: Some(did("lost")),
        pending: None,
    }];
    let mut before = Primary::new();
    before.subgraphs = vec![SubgraphRecord {
        name: name("a/name"),
        current: Some(did("lost")),
        pending: None,
    }];
    let mut store = ShardedStore::restore(
        primary,
        vec![shard(PRIMARY_SHARD), shard("shard_a")],
        EventTap::Capturing(vec![]),
    );

    let err = deploy_in(&mut store, "a/name", "shard_a", "dep1", Synced).unwrap_err();
    assert_eq!(ErrorKind::NotFound, err.kind());
    // the shard has the deployment, the primary knows nothing of it
    assert_eq!(Ok(true), deployment_exists(store.shard_store("shard_a").unwrap(), "dep1"));
    assert_eq!(&before, store.primary());
    assert!(store.tapped_events().is_empty());
    assert!(store.drain_events().is_empty());
    assert_eq!(ErrorKind::NotFound, store.shard_of(&did("dep1")).unwrap_err().kind());

    // repeating under another name succeeds; the shard writes nothing anew
    deploy_in(&mut store, "b/name", "shard_a", "dep1", Synced).unwrap();
    let expected = vec![StoreEvent::new(vec![written(
        "dep1",
        "SubgraphDeploymentAssignment",
        "dep1",
    )])];
    assert_eq!(expected, store.tapped_events());
    assert_eq!(Ok("shard_a".to_string()), store.shard_of(&did("dep1")));
    assert_eq!(1, store.shard_store("shard_a").unwrap().deployments.len());
}

#[test]
fn placement_in_a_missing_shard_is_an_unknown_shard() {
    let mut primary = Primary::new();
    primary.sites = vec![SiteRecord { deployment: did("dep1"), shard: "gone".to_string() }];
    let store = ShardedStore::restore(primary, vec![shard(PRIMARY_SHARD)], EventTap::Disabled);
    assert_eq!(Ok("gone".to_string()), store.shard(&did("dep1")));
    assert_eq!(ErrorKind::UnknownShard, store.shard_of(&did("dep1")).unwrap_err().kind());
    assert_eq!(ErrorKind::UnknownShard, store.store(&did("dep1")).unwrap_err().kind());
    assert_eq!(ErrorKind::NotFound, store.shard_of(&did("dep2")).unwrap_err().kind());
    assert_eq!(
        ErrorKind::UnknownShard,
        store.deployment_state_from_id(did("dep1")).unwrap_err().kind()
    );
}

#[test]
fn synced_policy_across_shards() {
    let mut store = three_shards();
    deploy_in(&mut store, "a/name", "shard_a", "depA", Synced).unwrap();
    assert_eq!(
        (Some("depA".to_string()), None),
        store.primary().versions_for_subgraph("a/name")
    );

    // depA is not synced: depB replaces it
    store.clear_tapped_events();
    deploy_in(&mut store, "a/name", "shard_b", "depB", Synced).unwrap();
    assert_eq!(
        vec![StoreEvent::new(vec![
            written("depB", "SubgraphDeployment", "depB"),
            written("depB", "SubgraphManifest", "depB-manifest"),
            removed("depA", "SubgraphDeploymentAssignment", "depA"),
            written("depB", "SubgraphDeploymentAssignment", "depB"),
        ])],
        store.tapped_events()
    );

    // depB syncs; its shard marks it, the primary has nothing to promote
    store.clear_tapped_events();
    store.deployment_synced(&did("depB")).unwrap();
    assert_eq!(vec![StoreEvent::new(vec![])], store.tapped_events());
    assert_eq!(Ok(true), exists_and_synced(store.shard_store("shard_b").unwrap(), "depB"));
    assert_eq!(Ok(false), exists_and_synced(store.shard_store("shard_a").unwrap(), "depA"));

    // depC is deployed while depB is synced: it is pending
    deploy_in(&mut store, "a/name", PRIMARY_SHARD, "depC", Synced).unwrap();
    assert_eq!(
        (Some("depB".to_string()), Some("depC".to_string())),
        store.primary().versions_for_subgraph("a/name")
    );

    // depC syncs: promoted, the assignment of depB is removed and that of
    // depC is announced
    store.clear_tapped_events();
    store.deployment_synced(&did("depC")).unwrap();
    assert_eq!(
        vec![StoreEvent::new(vec![
            removed("depB", "SubgraphDeploymentAssignment", "depB"),
            written("depC", "SubgraphDeploymentAssignment", "depC"),
        ])],
        store.tapped_events()
    );
    assert_eq!(
        (Some("depC".to_string()), None),
        store.primary().versions_for_subgraph("a/name")
    );
    assert_eq!(Ok(true), exists_and_synced(store.shard_store(PRIMARY_SHARD).unwrap(), "depC"));

    // marking it again is no error and publishes an empty event
    store.clear_tapped_events();
    store.deployment_synced(&did("depC")).unwrap();
    assert_eq!(vec![StoreEvent::new(vec![])], store.tapped_events());
}

#[test]
fn deployment_synced_for_an_unplaced_deployment_changes_nothing() {
    let mut store = three_shards();
    deploy_in(&mut store, "a/name", "shard_a", "depA", Synced).unwrap();
    store.clear_tapped_events();
    let err = store.deployment_synced(&did("unknown")).unwrap_err();
    assert_eq!(ErrorKind::NotFound, err.kind());
    assert!(store.tapped_events().is_empty());
}

#[test]
fn reassign_through_the_store_always_publishes() {
    let mut store = three_shards();
    deploy_in(&mut store, "a/name", "shard_a", "depA", Instant).unwrap();
    for target in ["left", "left", "right"] {
        store.clear_tapped_events();
        store.reassign_subgraph(&did("depA"), &node(target)).unwrap();
        assert_eq!(
            vec![StoreEvent::new(vec![written("depA", "SubgraphDeploymentAssignment", "depA")])],
            store.tapped_events()
        );
        assert_eq!(Ok(Some(node(target))), store.assigned_node(&did("depA")));
    }
    store.clear_tapped_events();
    let err = store.reassign_subgraph(&did("other"), &node("left")).unwrap_err();
    assert_eq!(ErrorKind::NotFound, err.kind());
    assert!(store.tapped_events().is_empty());
    assert_eq!(Ok(None), store.assigned_node(&did("other")));
}

#[test]
fn remove_subgraph_publishes_removed_assignments() {
    let mut store = three_shards();
    deploy_in(&mut store, "a/name", "shard_a", "depA", Instant).unwrap();
    store.clear_tapped_events();
    store.remove_subgraph(name("a/name")).unwrap();
    assert_eq!(
        vec![StoreEvent::new(vec![removed("depA", "SubgraphDeploymentAssignment", "depA")])],
        store.tapped_events()
    );
    assert!(store.primary().subgraphs.is_empty());
    // the data of the deployment stays where it is
    assert_eq!(Ok(true), deployment_exists(store.store(&did("depA")).unwrap(), "depA"));
}

fn insert(deployment: &str, entity_type: &str, entity_id: &str) -> EntityModification {
    EntityModification::Insert {
        key: EntityKey {
            subgraph_id: did(deployment),
            entity_type: entity_type.to_string(),
            entity_id: entity_id.to_string(),
        },
    }
}

#[test]
fn transact_advances_the_pointer_and_publishes_the_changes() {
    let mut store = three_shards();
    deploy_in(&mut store, "a/name", "shard_a", "depA", Instant).unwrap();
    store.clear_tapped_events();

    let mods = vec![
        insert("depA", "User", "1"),
        EntityModification::Overwrite {
            key: EntityKey {
                subgraph_id: did("depA"),
                entity_type: "User".to_string(),
                entity_id: "2".to_string(),
            },
        },
        EntityModification::Remove {
            key: EntityKey {
                subgraph_id: did("depA"),
                entity_type: "User".to_string(),
                entity_id: "3".to_string(),
            },
        },
    ];
    store.transact_block_operations(did("depA"), ptr(7, 12), mods).unwrap();

    let mut changes = vec![
        written("depA", "User", "1"),
        written("depA", "User", "2"),
        removed("depA", "User", "3"),
    ];
    changes.extend(block_ptr_store_event(&did("depA")).changes);
    assert_eq!(vec![StoreEvent::new(changes)], store.tapped_events());

    let expected = DeploymentState {
        id: did("depA"),
        reorg_count: 0,
        max_reorg_depth: 0,
        latest_ethereum_block_number: 12,
    };
    assert_eq!(Ok(expected), store.deployment_state_from_id(did("depA")));
}

#[test]
fn transact_refuses_a_batch_that_straddles_shards() {
    let mut store = three_shards();
    deploy_in(&mut store, "a/name", "shard_a", "depA", Instant).unwrap();
    deploy_in(&mut store, "b/name", "shard_b", "depB", Instant).unwrap();
    store.clear_tapped_events();

    let mods = vec![insert("depA", "User", "1"), insert("depB", "User", "1")];
    let err = store.transact_block_operations(did("depA"), ptr(7, 12), mods).unwrap_err();
    assert_eq!(ErrorKind::CrossShardContractViolation, err.kind());
    assert!(store.tapped_events().is_empty());
    assert_eq!(
        ErrorKind::NotYetSyncing,
        store.deployment_state_from_id(did("depA")).unwrap_err().kind()
    );

    let err = store
        .transact_block_operations(did("unplaced"), ptr(7, 12), vec![])
        .unwrap_err();
    assert_eq!(ErrorKind::NotFound, err.kind());
    assert!(store.tapped_events().is_empty());
}

#[test]
fn revert_through_the_store_counts_and_publishes() {
    let mut store = three_shards();
    deploy_in(&mut store, "a/name", "shard_b", "depA", Instant).unwrap();
    store.transact_block_operations(did("depA"), ptr(1, 10), vec![]).unwrap();
    store.clear_tapped_events();

    store.revert_block_operations(did("depA"), ptr(2, 9)).unwrap();
    store.revert_block_operations(did("depA"), ptr(3, 8)).unwrap();
    assert_eq!(
        vec![block_ptr_store_event(&did("depA")), block_ptr_store_event(&did("depA"))],
        store.tapped_events()
    );
    let expected = DeploymentState {
        id: did("depA"),
        reorg_count: 2,
        max_reorg_depth: 2,
        latest_ethereum_block_number: 8,
    };
    assert_eq!(Ok(expected), store.deployment_state_from_name(name("a/name")));

    let err = store.revert_block_operations(did("unplaced"), ptr(2, 9)).unwrap_err();
    assert_eq!(ErrorKind::NotFound, err.kind());
}

#[test]
fn revert_through_the_store_fails_whole_at_the_end_of_a_counter() {
    let mut data = Store::new();
    data.deployments = vec![DeploymentRecord {
        id: "depA".to_string(),
        manifest: "depA-manifest".to_string(),
        failed: false,
        health: SubgraphHealth::Healthy,
        synced: false,
        fatal_error: None,
        non_fatal_errors: vec![],
        earliest_ethereum_block_hash: None,
        earliest_ethereum_block_number: None,
        latest_ethereum_block_hash: None,
        latest_ethereum_block_number: Some(3),
        graft_base: None,
        graft_block_hash: None,
        graft_block_number: None,
        reorg_count: i64::MAX,
        current_reorg_depth: 0,
        max_reorg_depth: 0,
    }];
    let mut primary = Primary::new();
    primary.sites = vec![SiteRecord { deployment: did("depA"), shard: PRIMARY_SHARD.to_string() }];
    let mut store = ShardedStore::restore(
        primary,
        vec![Shard { name: PRIMARY_SHARD.to_string(), store: data }],
        EventTap::Capturing(vec![]),
    );
    let err = store.revert_block_operations(did("depA"), ptr(2, 2)).unwrap_err();
    assert_eq!(ErrorKind::ConstraintViolation, err.kind());
    assert!(store.tapped_events().is_empty());
    assert_eq!(
        Some(3),
        store.store(&did("depA")).unwrap().deployments[0].latest_ethereum_block_number
    );
}

#[test]
fn state_from_name_needs_a_current_deployment() {
    let mut store = three_shards();
    assert_eq!(
        ErrorKind::NotFound,
        store.deployment_state_from_name(name("a/name")).unwrap_err().kind()
    );
    store.create_subgraph(name("a/name")).unwrap();
    assert_eq!(
        ErrorKind::NotFound,
        store.deployment_state_from_name(name("a/name")).unwrap_err().kind()
    );
    deploy_in(&mut store, "a/name", "shard_a", "depA", Instant).unwrap();
    assert_eq!(
        ErrorKind::NotYetSyncing,
        store.deployment_state_from_name(name("a/name")).unwrap_err().kind()
    );
}

#[test]
fn unfail_through_the_store() {
    let mut data = Store::new();
    let mut failed = Store::new();
    create_deployment(&mut failed, &did("depA"), &entity_of("depA", vec![]), false);
    data.deployments = failed.deployments;
    data.deployments[0].failed = true;
    data.deployments[0].health = SubgraphHealth::Failed;
    data.deployments[0].fatal_error = Some("boom".to_string());
    data.errors = vec![ErrorRecord {
        id: "e".to_string(),
        subgraph_id: Some("depA".to_string()),
        message: "m".to_string(),
        deterministic: true,
    }];
    let mut primary = Primary::new();
    primary.sites = vec![SiteRecord { deployment: did("depA"), shard: "shard_a".to_string() }];
    let mut store = ShardedStore::restore(
        primary,
        vec![shard(PRIMARY_SHARD), Shard { name: "shard_a".to_string(), store: data }],
        EventTap::Capturing(vec![]),
    );

    store.unfail_deployment(&did("depA")).unwrap();
    let row = &store.store(&did("depA")).unwrap().deployments[0];
    assert_eq!(SubgraphHealth::Unhealthy, row.health);
    assert!(!row.failed);
    assert_eq!(None, row.fatal_error);
    assert!(store.tapped_events().is_empty());
    assert_eq!(ErrorKind::NotFound, store.unfail_deployment(&did("other")).unwrap_err().kind());
}

fn info(id: &str, synced: bool, latest: Option<i64>) -> Info {
    Info {
        subgraph: id.to_string(),
        synced,
        health: SubgraphHealth::Healthy,
        fatal_error: None,
        non_fatal_errors: vec![],
        earliest_block_number: None,
        latest_block_number: latest,
    }
}

fn populated() -> ShardedStore {
    let mut store = three_shards();
    deploy_in(&mut store, "n/one", "shard_b", "dep1", Synced).unwrap();
    deploy_in(&mut store, "n/two", "shard_a", "dep2", Synced).unwrap();
    deploy_in(&mut store, "n/three", "shard_b", "dep3", Synced).unwrap();
    store.transact_block_operations(did("dep2"), ptr(1, 4), vec![]).unwrap();
    store.deployment_synced(&did("dep3")).unwrap();
    store
}

#[test]
fn status_groups_by_shard_in_order_of_first_occurrence() {
    let store = populated();
    let filter = Filter::Deployments(vec![
        "dep3".to_string(),
        "dep2".to_string(),
        "dep1".to_string(),
    ]);
    // shard_b comes first, and reports in the order of its records
    assert_eq!(
        Ok(vec![info("dep1", false, None), info("dep3", true, None), info("dep2", false, Some(4))]),
        store.status(filter)
    );

    let filter = Filter::Deployments(vec!["dep2".to_string(), "dep1".to_string()]);
    assert_eq!(
        Ok(vec![info("dep2", false, Some(4)), info("dep1", false, None)]),
        store.status(filter)
    );
}

#[test]
fn status_drops_malformed_and_unknown_ids() {
    let store = populated();
    let filter = Filter::Deployments(vec![
        "not a valid id".to_string(),
        "dep2".to_string(),
        "unknown".to_string(),
        "dep2".to_string(),
    ]);
    assert_eq!(Ok(vec![info("dep2", false, Some(4))]), store.status(filter));
    assert_eq!(Ok(vec![]), store.status(Filter::Deployments(vec!["unknown".to_string()])));
    assert_eq!(Ok(vec![]), store.status(Filter::Deployments(vec![])));
}

#[test]
fn status_by_name_and_version() {
    let mut store = populated();
    // dep3 is synced, so dep4 becomes pending for n/three
    deploy_in(&mut store, "n/three", "shard_a", "dep4", Synced).unwrap();

    assert_eq!(
        Ok(vec![info("dep3", true, None), info("dep4", false, None)]),
        store.status(Filter::SubgraphName("n/three".to_string()))
    );
    assert_eq!(
        Ok(vec![info("dep3", true, None)]),
        store.status(Filter::SubgraphVersion("n/three".to_string(), true))
    );
    assert_eq!(
        Ok(vec![info("dep4", false, None)]),
        store.status(Filter::SubgraphVersion("n/three".to_string(), false))
    );
    assert_eq!(Ok(vec![]), store.status(Filter::SubgraphVersion("n/one".to_string(), false)));
    assert_eq!(Ok(vec![]), store.status(Filter::SubgraphName("n/none".to_string())));
}

#[test]
fn status_fails_for_a_deployment_placed_in_a_missing_shard() {
    let mut primary = Primary::new();
    primary.sites = vec![
        SiteRecord { deployment: did("here"), shard: PRIMARY_SHARD.to_string() },
        SiteRecord { deployment: did("there"), shard: "gone".to_string() },
    ];
    let store = ShardedStore::restore(primary, vec![shard(PRIMARY_SHARD)], EventTap::Disabled);
    let both = Filter::Deployments(vec!["here".to_string(), "there".to_string()]);
    assert_eq!(ErrorKind::UnknownShard, store.status(both).unwrap_err().kind());
    assert_eq!(Ok(vec![]), store.status(Filter::Deployments(vec!["here".to_string()])));
}

#[test]
fn data_sources_are_written_and_give_the_network() {
    let mut store = three_shards();
    store
        .create_deployment_internal(
            name("a/name"),
            "shard_a".to_string(),
            &schema_of("depA"),
            entity_of("depA", vec![Some("mainnet"), None, Some("ropsten")]),
            node("left"),
            Instant,
            false,
        )
        .unwrap();
    let data = store.store(&did("depA")).unwrap();
    assert_eq!(Ok(Some("mainnet".to_string())), network(data, &did("depA")));
    assert_eq!(
        vec![
            "depA-manifest-data-source-0".to_string(),
            "depA-manifest-data-source-1".to_string(),
            "depA-manifest-data-source-2".to_string(),
        ],
        data.manifests[0].data_sources
    );
    assert_eq!(3, data.data_sources.len());
    assert_eq!(Some("ropsten".to_string()), data.data_sources[2].network);
    assert_eq!(
        vec![StoreEvent::new(vec![
            written("depA", "SubgraphDeployment", "depA"),
            written("depA", "SubgraphManifest", "depA-manifest"),
            written("depA", "EthereumContractDataSource", "depA-manifest-data-source-0"),
            written("depA", "EthereumContractDataSource", "depA-manifest-data-source-1"),
            written("depA", "EthereumContractDataSource", "depA-manifest-data-source-2"),
            written("depA", "SubgraphDeploymentAssignment", "depA"),
        ])],
        store.tapped_events()
    );
}

#[test]
fn decimal_strings_and_data_source_ids() {
    assert_eq!("0", decimal_string(0));
    assert_eq!("7", decimal_string(7));
    assert_eq!("10", decimal_string(10));
    assert_eq!("409", decimal_string(409));
    assert_eq!("1234567890", decimal_string(1234567890));
    assert_eq!("abc-manifest-data-source-12", data_source_id(&did("abc"), 12));
}

#[test]
fn shard_creation_with_graft_and_earliest_block() {
    let manifest = SubgraphManifest {
        id: did("depA"),
        schema: schema_of("depA"),
        data_sources: vec![],
        graft: Some((did("base"), ptr(3, 50))),
    };
    let entity = SubgraphDeploymentEntity::new(&manifest, true, Some(ptr(4, 20)));
    let mut data = Store::new();
    let event = create_deployment(&mut data, &did("depA"), &entity, false);
    assert_eq!(2, event.changes.len());

    let row = &data.deployments[0];
    assert!(row.synced);
    assert_eq!(Some(20), row.earliest_ethereum_block_number);
    assert_eq!(Some(vec![4u8; 32]), row.earliest_ethereum_block_hash);
    assert_eq!(Some("base".to_string()), row.graft_base);
    assert_eq!(Some(50), row.graft_block_number);
    assert_eq!(Ok(Some((did("base"), ptr(3, 50)))), graft_point(&data, &did("depA")));

    let ungrafted = SubgraphDeploymentEntity::new(&manifest, false, None).graft(None);
    let mut data = Store::new();
    create_deployment(&mut data, &did("depA"), &ungrafted, false);
    assert_eq!(Ok(None), graft_point(&data, &did("depA")));
}

#[test]
fn tap_does_not_alter_what_is_delivered() {
    let first = StoreEvent::new(vec![written("a", "User", "1")]);
    let second = StoreEvent::new(vec![]);

    let mut plain = ChangeEventBus::new(EventTap::Disabled);
    let mut tapped = ChangeEventBus::new(EventTap::Capturing(vec![]));
    for bus in [&mut plain, &mut tapped] {
        bus.publish(&first);
        bus.publish(&second);
    }
    assert!(!plain.is_tapped());
    assert!(tapped.is_tapped());
    assert!(plain.tapped().is_empty());
    assert_eq!(
        vec![
            StoreEvent::new(vec![written("a", "User", "1")]),
            StoreEvent::new(vec![]),
        ],
        tapped.tapped()
    );

    tapped.clear_tap();
    assert!(tapped.tapped().is_empty());
    let delivered_plain = plain.drain();
    let delivered_tapped = tapped.drain();
    assert_eq!(delivered_plain, delivered_tapped);
    assert_eq!(2, delivered_plain.len());
    assert_eq!(first, delivered_plain[0]);
    assert!(plain.drain().is_empty());
}

#[test]
fn store_event_extend_keeps_order() {
    let mut event = StoreEvent::new(vec![written("a", "User", "1")]);
    event.extend(vec![removed("a", "User", "2"), written("a", "User", "3")]);
    assert_eq!(
        StoreEvent::new(vec![
            written("a", "User", "1"),
            removed("a", "User", "2"),
            written("a", "User", "3"),
        ]),
        event
    );
}

#[test]
fn metadata_operations_are_checked_routed_and_announced() {
    let mut store = three_shards();
    deploy_in(&mut store, "a/name", "shard_a", "depA", Instant).unwrap();
    store.clear_tapped_events();

    let batch = vec![
        MetadataOperation::Write {
            entity: MetadataType::SubgraphError,
            deployment: did("depA"),
            id: "error1".to_string(),
        },
        MetadataOperation::Update {
            entity: MetadataType::SubgraphDeploymentAssignment,
            deployment: did("depA"),
            id: "depA".to_string(),
        },
        MetadataOperation::Remove {
            entity: MetadataType::DynamicEthereumContractDataSource,
            deployment: did("depA"),
            id: "dynamic1".to_string(),
        },
    ];
    store.apply_metadata_operations(&did("depA"), batch).unwrap();
    assert_eq!(
        vec![StoreEvent::new(vec![
            written("depA", "SubgraphError", "error1"),
            written("depA", "SubgraphDeploymentAssignment", "depA"),
            removed("depA", "DynamicEthereumContractDataSource", "dynamic1"),
        ])],
        store.tapped_events()
    );

    store.clear_tapped_events();
    let straddling = vec![MetadataOperation::Write {
        entity: MetadataType::SubgraphError,
        deployment: did("other"),
        id: "error2".to_string(),
    }];
    let err = store.apply_metadata_operations(&did("depA"), straddling).unwrap_err();
    assert_eq!(ErrorKind::CrossShardContractViolation, err.kind());
    let err = store.apply_metadata_operations(&did("unplaced"), vec![]).unwrap_err();
    assert_eq!(ErrorKind::NotFound, err.kind());
    assert!(store.tapped_events().is_empty());
}

#[test]
fn signed_decimal_strings() {
    assert_eq!("0", signed_decimal_string(0));
    assert_eq!("-1", signed_decimal_string(-1));
    assert_eq!("4294967296", signed_decimal_string(4294967296));
    assert_eq!("-9223372036854775808", signed_decimal_string(i64::MIN));
    assert_eq!("9223372036854775807", signed_decimal_string(i64::MAX));
    assert_eq!("18446744073709551615", decimal_u64(u64::MAX));
    assert_eq!("a-b-c", concat3("a", "-b", "-c"));
}

#[test]
fn errors_of_the_store_say_what_was_not_found() {
    let mut primary = Primary::new();
    primary.sites = vec![
        SiteRecord { deployment: did("here"), shard: PRIMARY_SHARD.to_string() },
        SiteRecord { deployment: did("there"), shard: "gone".to_string() },
        SiteRecord { deployment: did("far"), shard: "away".to_string() },
    ];
    let mut store = ShardedStore::restore(
        primary,
        vec![shard(PRIMARY_SHARD)],
        EventTap::Capturing(vec![]),
    );

    assert_eq!("unplaced", store.shard(&did("unplaced")).unwrap_err().message());
    assert_eq!("unplaced", store.shard_of(&did("unplaced")).unwrap_err().message());
    assert_eq!("gone", store.shard_of(&did("there")).unwrap_err().message());
    assert_eq!("gone", store.store(&did("there")).unwrap_err().message());
    assert_eq!("gone", store.deployment_synced(&did("there")).unwrap_err().message());
    assert_eq!("unplaced", store.unfail_deployment(&did("unplaced")).unwrap_err().message());
    assert_eq!(
        "unplaced",
        store.reassign_subgraph(&did("unplaced"), &node("left")).unwrap_err().message()
    );
    assert_eq!(
        "No data found for subgraph here",
        store.deployment_state_from_id(did("here")).unwrap_err().message()
    );
    assert_eq!(
        "gone",
        store.deployment_state_from_id(did("there")).unwrap_err().message()
    );
    assert_eq!(
        "a/name",
        store.deployment_state_from_name(name("a/name")).unwrap_err().message()
    );
    assert_eq!(
        "gone",
        store.revert_block_operations(did("there"), ptr(1, 1)).unwrap_err().message()
    );

    let straddling = vec![insert("other", "User", "1")];
    assert_eq!(
        "can only apply operations within the shard of deployment `here`",
        store
            .transact_block_operations(did("here"), ptr(1, 1), straddling)
            .unwrap_err()
            .message()
    );
    assert_eq!(
        "unplaced",
        store
            .transact_block_operations(did("unplaced"), ptr(1, 1), vec![])
            .unwrap_err()
            .message()
    );

    // a report names the first shard that is missing
    let filter = Filter::Deployments(vec![
        "here".to_string(),
        "far".to_string(),
        "there".to_string(),
    ]);
    assert_eq!("away", store.status(filter).unwrap_err().message());

    // a creation names the target shard, or the shard it cannot ask
    assert_eq!(
        "nowhere",
        deploy_in(&mut store, "a/name", "nowhere", "fresh", Instant).unwrap_err().message()
    );
    assert_eq!(
        "gone",
        deploy_in(&mut store, "a/name", PRIMARY_SHARD, "there", Instant).unwrap_err().message()
    );

    assert_eq!(
        "a block number must fit a signed 32-bit integer",
        EthereumBlockPointer::new(BlockHash([0u8; 32]), 1 << 40).unwrap_err().message()
    );
}

#[test]
fn promotion_through_the_store_publishes_removal_and_writing() {
    let mut store = three_shards();
    deploy_in(&mut store, "a/name", "shard_a", "depA", Synced).unwrap();
    store.deployment_synced(&did("depA")).unwrap();
    deploy_in(&mut store, "a/name", "shard_b", "depB", Synced).unwrap();
    assert_eq!(
        (Some("depA".to_string()), Some("depB".to_string())),
        store.primary().versions_for_subgraph("a/name")
    );

    store.clear_tapped_events();
    store.deployment_synced(&did("depB")).unwrap();
    assert_eq!(
        (Some("depB".to_string()), None),
        store.primary().versions_for_subgraph("a/name")
    );
    assert_eq!(
        vec![StoreEvent::new(vec![
            removed("depA", "SubgraphDeploymentAssignment", "depA"),
            written("depB", "SubgraphDeploymentAssignment", "depB"),
        ])],
        store.tapped_events()
    );
    assert_eq!(Ok(true), exists_and_synced(store.shard_store("shard_b").unwrap(), "depB"));
}

#[test]
fn an_unknown_shard_is_refused_also_for_a_placed_deployment() {
    let mut store = three_shards();
    deploy_in(&mut store, "a/name", "shard_a", "depA", Instant).unwrap();
    store.clear_tapped_events();
    store.drain_events();
    let records = store.shard_store("shard_a").unwrap().deployments.len();
    let sites = store.primary().sites.len();

    let err = deploy_in(&mut store, "b/name", "nowhere", "depA", Instant).unwrap_err();
    assert_eq!(ErrorKind::UnknownShard, err.kind());
    assert_eq!("nowhere", err.message());
    assert_eq!(records, store.shard_store("shard_a").unwrap().deployments.len());
    assert_eq!(sites, store.primary().sites.len());
    assert_eq!((None, None), store.primary().versions_for_subgraph("b/name"));
    assert_eq!(1, store.primary().subgraphs.len());
    assert!(store.tapped_events().is_empty());
    assert!(store.drain_events().is_empty());

    // in a shard that the store has, the deployment stays where it is placed
    deploy_in(&mut store, "b/name", "shard_b", "depA", Instant).unwrap();
    assert_eq!(Ok("shard_a".to_string()), store.shard_of(&did("depA")));
    assert_eq!(&Store::new(), store.shard_store("shard_b").unwrap());
}
