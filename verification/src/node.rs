//! The replica bookkeeping of a server node.
//!
//! A node keeps, for each replica that it serves, the group the replica belongs to and
//! the replica's state. Creating, starting and recovering replicas consult and update
//! this table; the storage work in between (opening engines, persisting states) is
//! done by the caller, which hands the outcome back.
use std::collections::HashMap;
use vstd::prelude::*;

verus! {

broadcast use vstd::std_specs::hash::group_hash_axioms;

/// The lifecycle state of a replica.
#[derive(Clone, Copy, Debug, PartialEq, Eq, Structural)]
pub enum ReplicaState {
    /// The replica is a member of its group's initial configuration.
    Initial,
    /// The replica waits to be added to its group.
    Pending,
}

/// A member of a group.
#[derive(Clone, Copy, Debug, PartialEq, Eq, Structural)]
pub struct ReplicaDesc {
    /// The replica's id.
    pub id: u64,
    /// The node that hosts the replica.
    pub node_id: u64,
}

/// The description of a replication group, as far as replica creation reads it.
#[derive(Clone, Debug)]
pub struct GroupDesc {
    /// The group's id.
    pub id: u64,
    /// The group's members; empty while the group is not yet configured.
    pub replicas: Vec<ReplicaDesc>,
}

/// What a node remembers of a replica.
#[derive(Clone, Copy, Debug, PartialEq, Eq, Structural)]
pub struct ReplicaInfo {
    /// The group the replica belongs to.
    pub group_id: u64,
    /// The replica's state.
    pub state: ReplicaState,
}

/// What creating a replica amounts to.
#[derive(Clone, Copy, Debug, PartialEq, Eq, Structural)]
pub enum CreatePlan {
    /// The node serves the replica already: nothing is to be done.
    AlreadyExists,
    /// Create the replica's group engine and replica, and persist this state for it.
    Create { group_id: u64, state: ReplicaState },
}

/// The state of a replica newly created from `group`: `Pending` while the group has
/// no members yet, `Initial` otherwise.
pub open spec fn initial_state(group: GroupDesc) -> ReplicaState {
    if group.replicas@.len() == 0 {
        ReplicaState::Pending
    } else {
        ReplicaState::Initial
    }
}

/// What creating replica `replica_id` of `group` amounts to on a node whose table is
/// `replicas`.
pub open spec fn create_plan(
    replicas: Map<u64, ReplicaInfo>,
    replica_id: u64,
    group: GroupDesc,
) -> CreatePlan {
    if replicas.contains_key(replica_id) {
        CreatePlan::AlreadyExists
    } else {
        CreatePlan::Create { group_id: group.id, state: initial_state(group) }
    }
}

/// The table after a replica was created: a replica created during recovery is
/// recorded, any other is not.
pub open spec fn after_create(
    replicas: Map<u64, ReplicaInfo>,
    replica_id: u64,
    info: ReplicaInfo,
    recovered: bool,
) -> Map<u64, ReplicaInfo> {
    if recovered {
        replicas.insert(replica_id, info)
    } else {
        replicas
    }
}

/// What the table records of `replica_id`.
pub open spec fn lookup(replicas: Map<u64, ReplicaInfo>, replica_id: u64) -> Option<ReplicaInfo> {
    if replicas.contains_key(replica_id) {
        Some(replicas[replica_id])
    } else {
        None
    }
}

/// The replica table of a server node.
pub struct Node {
    replicas: HashMap<u64, ReplicaInfo>,
}

impl View for Node {
    type V = Map<u64, ReplicaInfo>;

    closed spec fn view(&self) -> Map<u64, ReplicaInfo> {
        self.replicas@
    }
}

impl Node {
    /// A node that serves no replica yet.
    pub fn new() -> (node: Node)
        ensures
            node@ == Map::<u64, ReplicaInfo>::empty(),
    {
        Node { replicas: HashMap::new() }
    }

    /// Whether the node serves no replica; recovery starts from such a node.
    pub fn is_empty(&self) -> (empty: bool)
        ensures
            empty == (self@ == Map::<u64, ReplicaInfo>::empty()),
    {
        let empty = self.replicas.is_empty();
        proof {
            if empty {
                assert(self@ =~= Map::<u64, ReplicaInfo>::empty());
            } else {
                assert(self@.dom() != Map::<u64, ReplicaInfo>::empty().dom());
            }
        }
        empty
    }

    /// Decides what creating replica `replica_id` of `group` amounts to. Creation is
    /// idempotent: a replica the node serves already is left alone.
    pub fn create_replica(&self, replica_id: u64, group: &GroupDesc) -> (plan: CreatePlan)
        ensures
            plan == create_plan(self@, replica_id, *group),
    {
        if self.replicas.contains_key(&replica_id) {
            return CreatePlan::AlreadyExists;
        }
        let state = if group.replicas.len() == 0 {
            ReplicaState::Pending
        } else {
            ReplicaState::Initial
        };
        CreatePlan::Create { group_id: group.id, state }
    }

    /// Records that replica `replica_id` was created in group `group_id` with `state`
    /// and that state was persisted; the node serves it from now on only if it was
    /// created during recovery.
    pub fn record_created_replica(
        &mut self,
        replica_id: u64,
        group_id: u64,
        state: ReplicaState,
        recovered: bool,
    )
        ensures
            final(self)@ == after_create(
                old(self)@,
                replica_id,
                ReplicaInfo { group_id, state },
                recovered,
            ),
    {
        if recovered {
            self.replicas.insert(replica_id, ReplicaInfo { group_id, state });
        }
    }

    /// Looks up the replica that `start_replica` is to open: its group and state, or
    /// `None` where the node does not serve it.
    pub fn start_replica(&self, replica_id: u64) -> (info: Option<ReplicaInfo>)
        ensures
            info == lookup(self@, replica_id),
    {
        match self.replicas.get(&replica_id) {
            Some(info) => Some(*info),
            None => None,
        }
    }

    /// Records a replica that recovery found persisted, given whether its group's
    /// engine opened. A persisted replica whose group is missing means the node's
    /// metadata is inconsistent: nothing is recorded and `false` comes back, on which
    /// recovery stops.
    pub fn recover_replica(
        &mut self,
        group_id: u64,
        replica_id: u64,
        state: ReplicaState,
        opened: Option<()>,
    ) -> (consistent: bool)
        ensures
            consistent == opened is Some,
            final(self)@ == if consistent {
                old(self)@.insert(replica_id, (ReplicaInfo { group_id, state }))
            } else {
                old(self)@
            },
    {
        match opened {
            Some(()) => {
                self.replicas.insert(replica_id, ReplicaInfo { group_id, state });
                true
            },
            None => false,
        }
    }
}

/// Creation is idempotent once the node serves the replica: when a creation made
/// during recovery has been recorded, creating the same replica again, from any group
/// description, does nothing.
pub proof fn created_replica_is_not_created_again(
    replicas: Map<u64, ReplicaInfo>,
    replica_id: u64,
    group: GroupDesc,
    group_again: GroupDesc,
    group_id: u64,
    state: ReplicaState,
)
    requires
        create_plan(replicas, replica_id, group) == (CreatePlan::Create { group_id, state }),
    ensures
        create_plan(
            after_create(replicas, replica_id, ReplicaInfo { group_id, state }, true),
            replica_id,
            group_again,
        ) == CreatePlan::AlreadyExists,
{
}

/// A creation outside recovery is not recorded: the node's table is unchanged, so
/// creating the same replica again plans the same creation.
pub proof fn unrecorded_creation_is_planned_again(
    replicas: Map<u64, ReplicaInfo>,
    replica_id: u64,
    group: GroupDesc,
    group_id: u64,
    state: ReplicaState,
)
    requires
        create_plan(replicas, replica_id, group) == (CreatePlan::Create { group_id, state }),
    ensures
        create_plan(
            after_create(replicas, replica_id, ReplicaInfo { group_id, state }, false),
            replica_id,
            group,
        ) == create_plan(replicas, replica_id, group),
{
}

/// A planned creation names the group's id and the state its membership dictates.
pub proof fn planned_creation_follows_group(
    replicas: Map<u64, ReplicaInfo>,
    replica_id: u64,
    group: GroupDesc,
)
    requires
        !replicas.contains_key(replica_id),
    ensures
        create_plan(replicas, replica_id, group) == (CreatePlan::Create {
            group_id: group.id,
            state: if group.replicas@.len() == 0 {
                ReplicaState::Pending
            } else {
                ReplicaState::Initial
            },
        }),
{
}

/// What a recorded creation or a recovery adds is what starting the replica finds.
pub proof fn start_finds_recorded_replica(
    replicas: Map<u64, ReplicaInfo>,
    replica_id: u64,
    info: ReplicaInfo,
)
    ensures
        lookup(after_create(replicas, replica_id, info, true), replica_id) == Some(info),
        lookup(replicas.insert(replica_id, info), replica_id) == Some(info),
{
}

/// Recording one replica, by creation or by recovery, leaves what the node knows of
/// every other replica unchanged.
pub proof fn recording_leaves_other_replicas(
    replicas: Map<u64, ReplicaInfo>,
    replica_id: u64,
    info: ReplicaInfo,
    recovered: bool,
    other: u64,
)
    requires
        other != replica_id,
    ensures
        lookup(after_create(replicas, replica_id, info, recovered), other) == lookup(
            replicas,
            other,
        ),
        lookup(replicas.insert(replica_id, info), other) == lookup(replicas, other),
{
}

/// A node that serves no replica starts none.
pub proof fn empty_node_starts_nothing(replica_id: u64)
    ensures
        lookup(Map::<u64, ReplicaInfo>::empty(), replica_id) is None,
{
}

} // verus!
