use engula::node::{CreatePlan, GroupDesc, Node, ReplicaDesc, ReplicaInfo, ReplicaState};

/// Persisted replica states, as the node's state engine would hold them.
type Store = Vec<(u64, u64, ReplicaState)>;

/// Creates a replica the way the server does: plan, persist, record.
fn create(node: &mut Node, store: &mut Store, replica_id: u64, group: &GroupDesc, recovered: bool) {
    match node.create_replica(replica_id, group) {
        CreatePlan::AlreadyExists => {}
        CreatePlan::Create { group_id, state } => {
            store.retain(|(_, id, _)| *id != replica_id);
            store.push((group_id, replica_id, state));
            node.record_created_replica(replica_id, group_id, state, recovered);
        }
    }
}

fn replica_state(store: &Store, replica_id: u64) -> Option<ReplicaState> {
    store
        .iter()
        .filter(|(_, id, _)| *id == replica_id)
        .map(|(_, _, state)| *state)
        .next()
}

#[test]
fn create_pending_replica() {
    let mut node = Node::new();
    let mut store = Store::new();
    let group_id = 2;
    let replica_id = 2;
    let group = GroupDesc { id: group_id, replicas: vec![] };
    create(&mut node, &mut store, replica_id, &group, false);
    assert!(matches!(replica_state(&store, replica_id), Some(ReplicaState::Pending)));
}

#[test]
fn create_replica() {
    let mut node = Node::new();
    let mut store = Store::new();
    let group_id = 2;
    let replica_id = 2;
    let group = GroupDesc {
        id: group_id,
        replicas: vec![ReplicaDesc { id: replica_id, node_id: 1 }],
    };
    create(&mut node, &mut store, replica_id, &group, false);
    assert!(matches!(replica_state(&store, replica_id), Some(ReplicaState::Initial)));
}

#[test]
fn recover() {
    let mut node = Node::new();
    let mut store = Store::new();
    let group_id = 2;
    let replica_id = 2;
    let group = GroupDesc { id: group_id, replicas: vec![] };
    create(&mut node, &mut store, replica_id, &group, false);
    drop(node);

    let mut node = Node::new();
    assert!(node.is_empty());
    for (group_id, replica_id, state) in store.iter().copied() {
        assert!(node.recover_replica(group_id, replica_id, state, Some(())));
    }
    assert_eq!(
        node.start_replica(replica_id),
        Some(ReplicaInfo { group_id, state: ReplicaState::Pending })
    );
}

#[test]
fn plan_names_group_and_state() {
    let node = Node::new();
    let group = GroupDesc { id: 7, replicas: vec![] };
    assert_eq!(
        node.create_replica(3, &group),
        CreatePlan::Create { group_id: 7, state: ReplicaState::Pending }
    );
    let group = GroupDesc {
        id: 9,
        replicas: vec![ReplicaDesc { id: 3, node_id: 1 }, ReplicaDesc { id: 4, node_id: 2 }],
    };
    assert_eq!(
        node.create_replica(3, &group),
        CreatePlan::Create { group_id: 9, state: ReplicaState::Initial }
    );
}

#[test]
fn created_replica_is_not_created_again_after_recovery() {
    let mut node = Node::new();
    let mut store = Store::new();
    let group = GroupDesc { id: 1, replicas: vec![] };
    create(&mut node, &mut store, 5, &group, true);
    assert!(!node.is_empty());
    let other = GroupDesc { id: 8, replicas: vec![ReplicaDesc { id: 5, node_id: 3 }] };
    assert_eq!(node.create_replica(5, &other), CreatePlan::AlreadyExists);
    assert_eq!(
        node.start_replica(5),
        Some(ReplicaInfo { group_id: 1, state: ReplicaState::Pending })
    );
}

#[test]
fn unrecorded_creation_is_planned_again() {
    let mut node = Node::new();
    let mut store = Store::new();
    let group = GroupDesc { id: 1, replicas: vec![] };
    create(&mut node, &mut store, 5, &group, false);
    assert!(node.is_empty());
    assert_eq!(
        node.create_replica(5, &group),
        CreatePlan::Create { group_id: 1, state: ReplicaState::Pending }
    );
    assert_eq!(node.start_replica(5), None);
}

#[test]
fn recording_leaves_other_replicas() {
    let mut node = Node::new();
    assert!(node.recover_replica(1, 10, ReplicaState::Initial, Some(())));
    node.record_created_replica(11, 2, ReplicaState::Pending, true);
    assert!(node.recover_replica(3, 12, ReplicaState::Pending, Some(())));
    assert_eq!(
        node.start_replica(10),
        Some(ReplicaInfo { group_id: 1, state: ReplicaState::Initial })
    );
    assert_eq!(
        node.start_replica(11),
        Some(ReplicaInfo { group_id: 2, state: ReplicaState::Pending })
    );
    assert!(node.recover_replica(4, 10, ReplicaState::Pending, Some(())));
    assert_eq!(
        node.start_replica(10),
        Some(ReplicaInfo { group_id: 4, state: ReplicaState::Pending })
    );
    assert_eq!(
        node.start_replica(12),
        Some(ReplicaInfo { group_id: 3, state: ReplicaState::Pending })
    );
}

#[test]
fn empty_node_starts_nothing() {
    let node = Node::new();
    assert!(node.is_empty());
    assert_eq!(node.start_replica(0), None);
    assert_eq!(node.start_replica(u64::MAX), None);
}

#[test]
fn recovery_without_group_is_inconsistent() {
    let mut node = Node::new();
    assert!(node.recover_replica(1, 10, ReplicaState::Initial, Some(())));
    assert!(!node.recover_replica(2, 11, ReplicaState::Pending, None));
    assert_eq!(node.start_replica(11), None);
    assert!(!node.recover_replica(3, 10, ReplicaState::Pending, None));
    assert_eq!(
        node.start_replica(10),
        Some(ReplicaInfo { group_id: 1, state: ReplicaState::Initial })
    );
}
