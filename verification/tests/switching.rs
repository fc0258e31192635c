use subgraph_store::event::{EntityChange, EntityChangeOperation};
use subgraph_store::ids::{NodeId, SubgraphDeploymentId, SubgraphName};
use subgraph_store::error::ErrorKind;
use subgraph_store::primary::SubgraphVersionSwitchingMode::{Instant, Synced};
use subgraph_store::primary::{
    decide_switch, AssignmentRecord, Primary, SubgraphRecord, SubgraphVersionSwitchingMode,
    SwitchAction,
};

const NAME: &str = "some/name";

fn did(s: &str) -> SubgraphDeploymentId {
    SubgraphDeploymentId::new(s).unwrap()
}

fn name() -> SubgraphName {
    SubgraphName::new(NAME).unwrap()
}

fn node(s: &str) -> NodeId {
    NodeId::new(s).unwrap()
}

fn assignment_set(id: &str) -> EntityChange {
    EntityChange {
        subgraph_id: did(id),
        entity_type: "SubgraphDeploymentAssignment".to_string(),
        entity_id: id.to_string(),
        operation: EntityChangeOperation::Written,
    }
}

fn assignment_removed(id: &str) -> EntityChange {
    EntityChange {
        subgraph_id: did(id),
        entity_type: "SubgraphDeploymentAssignment".to_string(),
        entity_id: id.to_string(),
        operation: EntityChangeOperation::Removed,
    }
}

fn deploy_to(
    primary: &mut Primary,
    id: &str,
    mode: SubgraphVersionSwitchingMode,
    current_synced: bool,
) -> Vec<EntityChange> {
    primary.create_subgraph_version(name(), &did(id), node("left"), mode, current_synced)
}

fn versions(primary: &Primary) -> (Option<String>, Option<String>) {
    primary.versions_for_subgraph(NAME)
}

fn pair(current: Option<&str>, pending: Option<&str>) -> (Option<String>, Option<String>) {
    (current.map(|s| s.to_string()), pending.map(|s| s.to_string()))
}

fn assigned(primary: &Primary) -> Vec<String> {
    primary.assignments.iter().map(|a| a.id.to_string()).collect()
}

#[test]
fn instant_policy_deploy_a_then_b_then_c() {
    let mut primary = Primary::new();

    let changes = deploy_to(&mut primary, "A", Instant, false);
    assert_eq!(vec![assignment_set("A")], changes);
    assert_eq!(pair(Some("A"), None), versions(&primary));

    let changes = deploy_to(&mut primary, "B", Instant, false);
    assert_eq!(vec![assignment_removed("A"), assignment_set("B")], changes);
    assert_eq!(pair(Some("B"), None), versions(&primary));

    // sync status makes no difference
    let changes = deploy_to(&mut primary, "C", Instant, true);
    assert_eq!(vec![assignment_removed("B"), assignment_set("C")], changes);
    assert_eq!(pair(Some("C"), None), versions(&primary));
    assert_eq!(vec!["C".to_string()], assigned(&primary));
}

#[test]
fn instant_policy_redeploying_current_changes_nothing() {
    let mut primary = Primary::new();
    deploy_to(&mut primary, "A", Instant, false);
    let changes = deploy_to(&mut primary, "A", Instant, true);
    assert!(changes.is_empty());
    assert_eq!(pair(Some("A"), None), versions(&primary));
    assert_eq!(vec!["A".to_string()], assigned(&primary));
}

#[test]
fn synced_policy_walk_through() {
    let mut primary = Primary::new();

    // deploy A: current = A, nothing pending
    let changes = deploy_to(&mut primary, "A", Synced, false);
    assert_eq!(vec![assignment_set("A")], changes);
    assert_eq!(pair(Some("A"), None), versions(&primary));

    // A is synced; to promote it changes nothing, since it is current
    let changes = primary.promote_deployment(&did("A"));
    assert!(changes.is_empty());
    assert_eq!(pair(Some("A"), None), versions(&primary));

    // deploy B while A is synced: B is pending, no assignment is removed
    let changes = deploy_to(&mut primary, "B", Synced, true);
    assert_eq!(vec![assignment_set("B")], changes);
    assert_eq!(pair(Some("A"), Some("B")), versions(&primary));
    assert_eq!(vec!["A".to_string(), "B".to_string()], assigned(&primary));

    // B is synced: B is current, nothing pending, the assignment of A goes
    // and that of B is announced
    let changes = primary.promote_deployment(&did("B"));
    assert_eq!(vec![assignment_removed("A"), assignment_set("B")], changes);
    assert_eq!(pair(Some("B"), None), versions(&primary));
    assert_eq!(vec!["B".to_string()], assigned(&primary));

    // deploy C: pending, since B is synced
    let changes = deploy_to(&mut primary, "C", Synced, true);
    assert_eq!(vec![assignment_set("C")], changes);
    assert_eq!(pair(Some("B"), Some("C")), versions(&primary));

    // deploy the current one again while C is pending: it stays current
    // and displaces the pending one
    let changes = deploy_to(&mut primary, "B", Synced, true);
    assert_eq!(vec![assignment_removed("C")], changes);
    assert_eq!(pair(Some("B"), Some("B")), versions(&primary));

    // the next promotion resolves the duplicate
    let changes = primary.promote_deployment(&did("B"));
    assert_eq!(vec![assignment_set("B")], changes);
    assert_eq!(pair(Some("B"), None), versions(&primary));
    assert_eq!(vec!["B".to_string()], assigned(&primary));
}

#[test]
fn synced_policy_deploy_current_again_while_another_is_pending() {
    let mut primary = Primary::new();
    deploy_to(&mut primary, "A", Synced, false);
    deploy_to(&mut primary, "C", Synced, true);
    assert_eq!(pair(Some("A"), Some("C")), versions(&primary));

    let changes = deploy_to(&mut primary, "A", Synced, true);
    assert_eq!(vec![assignment_removed("C")], changes);
    let (current, pending) = versions(&primary);
    assert_eq!(Some("A"), current.as_deref());
    assert_eq!(Some("A"), pending.as_deref());
}

#[test]
fn synced_policy_replaces_an_unsynced_current() {
    let mut primary = Primary::new();
    deploy_to(&mut primary, "A", Synced, false);
    let changes = deploy_to(&mut primary, "B", Synced, false);
    assert_eq!(vec![assignment_removed("A"), assignment_set("B")], changes);
    assert_eq!(pair(Some("B"), None), versions(&primary));
}

#[test]
fn synced_policy_redeploy_of_current_or_pending_changes_nothing() {
    // current, not synced, nothing pending
    let mut primary = Primary::new();
    deploy_to(&mut primary, "A", Synced, false);
    let before_subgraphs = versions(&primary);
    let before_assigned = assigned(&primary);
    assert!(deploy_to(&mut primary, "A", Synced, false).is_empty());
    assert_eq!(before_subgraphs, versions(&primary));
    assert_eq!(before_assigned, assigned(&primary));

    // current, synced, nothing pending
    assert!(deploy_to(&mut primary, "A", Synced, true).is_empty());
    assert_eq!(pair(Some("A"), None), versions(&primary));
    assert_eq!(before_assigned, assigned(&primary));

    // pending
    deploy_to(&mut primary, "B", Synced, true);
    let before_subgraphs = versions(&primary);
    let before_assigned = assigned(&primary);
    assert!(deploy_to(&mut primary, "B", Synced, true).is_empty());
    assert!(deploy_to(&mut primary, "B", Synced, false).is_empty());
    assert_eq!(before_subgraphs, versions(&primary));
    assert_eq!(before_assigned, assigned(&primary));
    assert_eq!(1, primary.subgraphs.len());
}

#[test]
fn decide_switch_table() {
    let a = Some(did("A"));
    let b = Some(did("B"));
    let none: Option<SubgraphDeploymentId> = None;
    let id = did("A");

    assert_eq!(SwitchAction::Nothing, decide_switch(Instant, false, &a, &none, &id));
    // a pending deployment does not outlast an instant deploy
    assert_eq!(SwitchAction::ReplaceCurrent, decide_switch(Instant, true, &a, &b, &id));
    assert_eq!(SwitchAction::Nothing, decide_switch(Instant, true, &a, &none, &id));
    assert_eq!(SwitchAction::ReplaceCurrent, decide_switch(Instant, true, &b, &none, &id));
    assert_eq!(SwitchAction::ReplaceCurrent, decide_switch(Instant, false, &none, &none, &id));
    assert_eq!(SwitchAction::ReplaceCurrent, decide_switch(Instant, true, &b, &a, &id));

    assert_eq!(SwitchAction::Nothing, decide_switch(Synced, true, &b, &a, &id));
    assert_eq!(SwitchAction::Nothing, decide_switch(Synced, false, &b, &a, &id));
    assert_eq!(SwitchAction::Nothing, decide_switch(Synced, true, &a, &none, &id));
    assert_eq!(SwitchAction::Nothing, decide_switch(Synced, false, &a, &none, &id));
    assert_eq!(SwitchAction::MakePending, decide_switch(Synced, true, &a, &b, &id));
    assert_eq!(SwitchAction::MakePending, decide_switch(Synced, true, &b, &none, &id));
    assert_eq!(SwitchAction::ReplaceCurrent, decide_switch(Synced, false, &b, &none, &id));
    assert_eq!(SwitchAction::ReplaceCurrent, decide_switch(Synced, false, &none, &none, &id));
    // without a current deployment there is nothing that could be synced
    assert_eq!(SwitchAction::ReplaceCurrent, decide_switch(Synced, true, &none, &none, &id));
}

#[test]
fn assignment_shared_by_two_names_survives_one_switch() {
    let mut primary = Primary::new();
    let other = SubgraphName::new("other/name").unwrap();
    deploy_to(&mut primary, "A", Instant, false);
    let changes = primary.create_subgraph_version(other, &did("A"), node("right"), Instant, false);
    // A has an assignment already: nothing to announce
    assert!(changes.is_empty());
    assert_eq!(Some(node("left")), primary.assigned_node(&did("A")));

    // the first name moves on; A is still used by the other name
    let changes = deploy_to(&mut primary, "B", Instant, false);
    assert_eq!(vec![assignment_set("B")], changes);
    assert_eq!(vec!["A".to_string(), "B".to_string()], assigned(&primary));
}

#[test]
fn reassign_emits_a_change_even_for_the_same_node() {
    let mut primary = Primary::new();
    deploy_to(&mut primary, "A", Instant, false);
    assert_eq!(Some(node("left")), primary.assigned_node(&did("A")));

    let changes = primary.reassign_subgraph(&did("A"), &node("left")).unwrap();
    assert_eq!(vec![assignment_set("A")], changes);
    assert_eq!(Some(node("left")), primary.assigned_node(&did("A")));

    let changes = primary.reassign_subgraph(&did("A"), &node("right")).unwrap();
    assert_eq!(vec![assignment_set("A")], changes);
    assert_eq!(Some(node("right")), primary.assigned_node(&did("A")));
}

#[test]
fn reassign_of_an_unassigned_deployment_is_not_found() {
    let mut primary = Primary::new();
    let err = primary.reassign_subgraph(&did("A"), &node("left")).unwrap_err();
    assert_eq!(ErrorKind::NotFound, err.kind());
    assert!(primary.assignments.is_empty());
}

#[test]
fn remove_subgraph_removes_unused_assignments() {
    let mut primary = Primary::new();
    deploy_to(&mut primary, "A", Synced, false);
    deploy_to(&mut primary, "B", Synced, true);
    let changes = primary.remove_subgraph(name());
    assert_eq!(vec![assignment_removed("A"), assignment_removed("B")], changes);
    assert!(primary.subgraphs.is_empty());
    assert!(primary.assignments.is_empty());

    // removing an unknown name changes nothing
    let changes = primary.remove_subgraph(name());
    assert!(changes.is_empty());
}

#[test]
fn remove_unused_assignments_keeps_what_is_pointed_to() {
    let mut primary = Primary::new();
    primary.subgraphs = vec![SubgraphRecord {
        name: name(),
        current: Some(did("A")),
        pending: Some(did("B")),
    }];
    primary.assignments = vec![
        AssignmentRecord { id: did("X"), node_id: node("n") },
        AssignmentRecord { id: did("A"), node_id: node("n") },
        AssignmentRecord { id: did("Y"), node_id: node("n") },
        AssignmentRecord { id: did("B"), node_id: node("n") },
    ];
    let changes = primary.remove_unused_assignments();
    assert_eq!(vec![assignment_removed("X"), assignment_removed("Y")], changes);
    assert_eq!(vec!["A".to_string(), "B".to_string()], assigned(&primary));
}

#[test]
fn primary_lookups() {
    let mut primary = Primary::new();
    assert_eq!(
        ErrorKind::NotFound,
        primary.current_deployment_for_subgraph(&name()).unwrap_err().kind()
    );
    assert_eq!(NAME, primary.create_subgraph(&name()));
    assert_eq!(1, primary.subgraphs.len());
    assert_eq!(NAME, primary.create_subgraph(&name()));
    assert_eq!(1, primary.subgraphs.len());
    assert_eq!(
        ErrorKind::NotFound,
        primary.current_deployment_for_subgraph(&name()).unwrap_err().kind()
    );

    deploy_to(&mut primary, "A", Synced, false);
    deploy_to(&mut primary, "B", Synced, true);
    assert_eq!(Ok(did("A")), primary.current_deployment_for_subgraph(&name()));
    assert_eq!(Some(did("A")), primary.current_deployment(&name()));
    assert_eq!(Some("A".to_string()), primary.subgraph_version(NAME, true));
    assert_eq!(Some("B".to_string()), primary.subgraph_version(NAME, false));
    assert_eq!(vec!["A".to_string(), "B".to_string()], primary.deployments_for_subgraph(NAME));
    assert!(primary.deployments_for_subgraph("unknown").is_empty());
    assert_eq!(None, primary.subgraph_version("unknown", true));

    primary.place_deployment(&did("A"), "shard_a");
    primary.place_deployment(&did("A"), "shard_b");
    assert_eq!(Ok("shard_a".to_string()), primary.shard(&did("A")));
    assert_eq!(
        ErrorKind::NotFound,
        primary.shard(&did("B")).unwrap_err().kind()
    );
}

#[test]
fn promotion_of_a_deployment_that_is_not_pending_changes_nothing() {
    let mut primary = Primary::new();
    deploy_to(&mut primary, "A", Synced, false);
    deploy_to(&mut primary, "B", Synced, true);
    let before = (versions(&primary), assigned(&primary));
    assert!(primary.promote_deployment(&did("A")).is_empty());
    assert!(primary.promote_deployment(&did("unknown")).is_empty());
    assert_eq!(before, (versions(&primary), assigned(&primary)));
}

#[test]
fn instant_deploy_leaves_nothing_pending() {
    let mut primary = Primary::new();
    deploy_to(&mut primary, "A", Synced, false);
    deploy_to(&mut primary, "B", Synced, true);
    assert_eq!(pair(Some("A"), Some("B")), versions(&primary));

    // the current one deployed again, now under the instant policy
    let changes = deploy_to(&mut primary, "A", Instant, true);
    assert_eq!(vec![assignment_removed("B")], changes);
    assert_eq!(pair(Some("A"), None), versions(&primary));

    deploy_to(&mut primary, "B", Synced, true);
    let changes = deploy_to(&mut primary, "C", Instant, true);
    assert_eq!(
        vec![assignment_removed("A"), assignment_removed("B"), assignment_set("C")],
        changes
    );
    assert_eq!(pair(Some("C"), None), versions(&primary));
}
