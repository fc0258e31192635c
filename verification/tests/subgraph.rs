use std::collections::HashSet;

use subgraph_store::entity::{Schema, SubgraphDeploymentEntity, SubgraphManifest};
use subgraph_store::event::{EntityChange, EntityChangeOperation, EventTap, StoreEvent};
use subgraph_store::ids::{NodeId, SubgraphDeploymentId, SubgraphName};
use subgraph_store::metadata::MetadataType;
use subgraph_store::primary::{Primary, SubgraphVersionSwitchingMode};
use subgraph_store::records::Store;
use subgraph_store::sharded_store::{Shard, ShardedStore, PRIMARY_SHARD};

const SUBGRAPH_GQL: &str = "
    type User @entity {
        id: ID!,
        name: String
    }
";

const NETWORK_NAME: &str = "fake_network";

fn new_store() -> ShardedStore {
    let shards = vec![Shard {
        name: PRIMARY_SHARD.to_string(),
        store: Store::new(),
    }];
    ShardedStore::restore(Primary::new(), shards, EventTap::Capturing(vec![]))
}

fn tap_store_events<F: FnOnce(&mut ShardedStore)>(store: &mut ShardedStore, f: F) -> Vec<StoreEvent> {
    store.clear_tapped_events();
    f(store);
    store.tapped_events()
}

fn test_manifest(id: &SubgraphDeploymentId) -> (Schema, SubgraphManifest) {
    let schema = Schema {
        id: id.clone(),
        document: SUBGRAPH_GQL.to_string(),
    };
    let manifest = SubgraphManifest {
        id: id.clone(),
        schema: Schema {
            id: id.clone(),
            document: SUBGRAPH_GQL.to_string(),
        },
        data_sources: vec![],
        graft: None,
    };
    (schema, manifest)
}

fn create_test_subgraph(store: &mut ShardedStore, id: &SubgraphDeploymentId) {
    let (schema, manifest) = test_manifest(id);
    let deployment = SubgraphDeploymentEntity::new(&manifest, false, None);
    let name = SubgraphName::new(id.as_str()).unwrap();
    let node = NodeId::new("test").unwrap();
    store
        .create_deployment_replace(
            name,
            &schema,
            deployment,
            node,
            SubgraphVersionSwitchingMode::Instant,
        )
        .unwrap();
}

fn set(typ: MetadataType, subgraph_id: &str, id: &str) -> EntityChange {
    EntityChange {
        subgraph_id: SubgraphDeploymentId::new(subgraph_id).unwrap(),
        entity_type: typ.to_string(),
        entity_id: id.to_string(),
        operation: EntityChangeOperation::Written,
    }
}

fn removed(typ: MetadataType, subgraph_id: &str, id: &str) -> EntityChange {
    EntityChange {
        subgraph_id: SubgraphDeploymentId::new(subgraph_id).unwrap(),
        entity_type: typ.to_string(),
        entity_id: id.to_string(),
        operation: EntityChangeOperation::Removed,
    }
}

fn find_assignment(store: &ShardedStore, id: &SubgraphDeploymentId) -> Option<String> {
    store
        .assigned_node(id)
        .unwrap()
        .map(|node| node.to_string())
}

#[test]
fn reassign_subgraph() {
    let mut store = new_store();
    let id = SubgraphDeploymentId::new("reassignSubgraph").unwrap();
    create_test_subgraph(&mut store, &id);

    // Check our setup
    let node = find_assignment(&store, &id);
    assert_eq!(Some("test".to_string()), node);

    // Assign to node 'left' twice, the first time we assign from 'test'
    // to 'left', the second time from 'left' to 'left', with the same results
    for _ in 0..2 {
        let node = NodeId::new("left").unwrap();
        let expected = vec![StoreEvent::new(vec![set(
            MetadataType::SubgraphDeploymentAssignment,
            id.as_str(),
            id.as_str(),
        )])];

        let events = tap_store_events(&mut store, |store| {
            store.reassign_subgraph(&id, &node).unwrap()
        });
        let node = find_assignment(&store, &id);
        assert_eq!(Some("left"), node.as_deref());
        assert_eq!(expected, events);
    }
}

const SUBGRAPH_NAME: &str = "create/subgraph";

// Return the current and the pending version of the subgraph
fn subgraph_versions(store: &ShardedStore) -> (Option<String>, Option<String>) {
    store.primary().versions_for_subgraph(SUBGRAPH_NAME)
}

/// Return the deployment for the current and the pending version of the
/// subgraph
fn subgraph_deployments(store: &ShardedStore) -> (Option<String>, Option<String>) {
    subgraph_versions(store)
}

fn deploy(
    store: &mut ShardedStore,
    id: &str,
    mode: SubgraphVersionSwitchingMode,
) -> HashSet<EntityChange> {
    let name = SubgraphName::new(SUBGRAPH_NAME).unwrap();
    let id = SubgraphDeploymentId::new(id).unwrap();
    let (schema, manifest) = test_manifest(&id);
    let deployment = SubgraphDeploymentEntity::new(&manifest, false, None);
    let node_id = NodeId::new("left").unwrap();

    tap_store_events(store, |store| {
        store
            .create_subgraph_deployment(
                name,
                &schema,
                deployment,
                node_id,
                NETWORK_NAME.to_string(),
                mode,
            )
            .unwrap()
    })
    .into_iter()
    .map(|event| event.changes.into_iter())
    .flatten()
    .collect()
}

fn deploy_event(id: &str) -> HashSet<EntityChange> {
    let mut changes = HashSet::new();
    changes.insert(set(MetadataType::SubgraphDeployment, id, id));
    changes.insert(set(MetadataType::SubgraphDeploymentAssignment, id, id));
    changes.insert(set(
        MetadataType::SubgraphManifest,
        id,
        &format!("{}-manifest", id),
    ));
    changes
}

#[test]
fn create_subgraph() {
    // Test VersionSwitchingMode::Instant
    {
        const MODE: SubgraphVersionSwitchingMode = SubgraphVersionSwitchingMode::Instant;
        const ID: &str = "instant";
        const ID2: &str = "instant2";
        const ID3: &str = "instant3";

        let mut store = new_store();

        let name = SubgraphName::new(SUBGRAPH_NAME).unwrap();
        let mut subgraph = String::from("none");
        let events = tap_store_events(&mut store, |store| {
            subgraph = store.create_subgraph(name.clone()).unwrap();
        });
        let (current, pending) = subgraph_deployments(&store);
        assert!(events.is_empty());
        assert!(current.is_none());
        assert!(pending.is_none());
        assert_ne!("none", subgraph);

        // Deploy
        let expected = deploy_event(ID);

        let events = deploy(&mut store, ID, MODE);
        assert_eq!(expected, events);

        let (current, pending) = subgraph_deployments(&store);
        assert_eq!(Some(ID), current.as_deref());
        assert!(pending.is_none());

        // Deploying again overwrites current
        let mut expected = deploy_event(ID2);
        expected.insert(removed(MetadataType::SubgraphDeploymentAssignment, ID, ID));

        let events = deploy(&mut store, ID2, MODE);
        assert_eq!(expected, events);

        let (current, pending) = subgraph_deployments(&store);
        assert_eq!(Some(ID2), current.as_deref());
        assert!(pending.is_none());

        // Sync deployment
        store
            .deployment_synced(&SubgraphDeploymentId::new(ID2).unwrap())
            .unwrap();

        // Deploying again still overwrites current
        let mut expected = deploy_event(ID3);
        expected.insert(removed(
            MetadataType::SubgraphDeploymentAssignment,
            ID2,
            ID2,
        ));

        let events = deploy(&mut store, ID3, MODE);
        assert_eq!(expected, events);

        let (current, pending) = subgraph_deployments(&store);
        assert_eq!(Some(ID3), current.as_deref());
        assert!(pending.is_none());
    }

    // Test VersionSwitchingMode::Synced
    {
        const MODE: SubgraphVersionSwitchingMode = SubgraphVersionSwitchingMode::Synced;
        const ID: &str = "synced";
        const ID2: &str = "synced2";
        const ID3: &str = "synced3";

        let mut store = new_store();

        let name = SubgraphName::new(SUBGRAPH_NAME).unwrap();
        let mut subgraph = String::from("none");
        let events = tap_store_events(&mut store, |store| {
            subgraph = store.create_subgraph(name.clone()).unwrap();
        });
        let (current, pending) = subgraph_deployments(&store);
        assert!(events.is_empty());
        assert!(current.is_none());
        assert!(pending.is_none());
        assert_ne!("none", subgraph);

        // Deploy
        let expected = deploy_event(ID);

        let events = deploy(&mut store, ID, MODE);
        assert_eq!(expected, events);

        let versions = subgraph_versions(&store);
        let (current, pending) = subgraph_deployments(&store);
        assert_eq!(Some(ID), current.as_deref());
        assert!(pending.is_none());

        // Deploying the same thing again does nothing
        let events = deploy(&mut store, ID, MODE);
        assert!(events.is_empty());
        let versions2 = subgraph_versions(&store);
        assert_eq!(versions, versions2);

        // Deploy again, current is not synced, so it gets replaced
        let mut expected = deploy_event(ID2);
        expected.insert(removed(MetadataType::SubgraphDeploymentAssignment, ID, ID));

        let events = deploy(&mut store, ID2, MODE);
        assert_eq!(expected, events);

        let (current, pending) = subgraph_deployments(&store);
        assert_eq!(Some(ID2), current.as_deref());
        assert!(pending.is_none());

        // Deploy when current is synced leaves current alone and adds pending
        store
            .deployment_synced(&SubgraphDeploymentId::new(ID2).unwrap())
            .unwrap();
        let expected = deploy_event(ID3);

        let events = deploy(&mut store, ID3, MODE);
        assert_eq!(expected, events);

        let versions = subgraph_versions(&store);
        let (current, pending) = subgraph_deployments(&store);
        assert_eq!(Some(ID2), current.as_deref());
        assert_eq!(Some(ID3), pending.as_deref());

        // Deploying that same thing again changes nothing
        let events = deploy(&mut store, ID3, MODE);
        assert!(events.is_empty());
        let versions2 = subgraph_versions(&store);
        assert_eq!(versions, versions2);

        // Deploy the current version once more; we wind up with current and pending
        // pointing to ID2. That's not ideal, but will be rectified when the
        // next block gets processed and the pending version is promoted to
        // current
        let mut expected = HashSet::new();
        expected.insert(removed(
            MetadataType::SubgraphDeploymentAssignment,
            ID3,
            ID3,
        ));

        let events = deploy(&mut store, ID2, MODE);
        assert_eq!(expected, events);

        let (current, pending) = subgraph_deployments(&store);
        assert_eq!(Some(ID2), current.as_deref());
        assert_eq!(Some(ID2), pending.as_deref());
    }
}
