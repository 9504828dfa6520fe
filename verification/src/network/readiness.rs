//! Whether a node is a ready member of a consensus group.

use crate::error::{Error, ErrorView};
use crate::network::management::{contains_id, MembershipView};
use crate::node::NodeId;
use vstd::prelude::*;

verus! {

/// The role of a node in its consensus group.
#[derive(Debug, Clone, Copy, PartialEq, Eq, Structural)]
pub enum ServerState {
    Learner,
    Follower,
    Candidate,
    Leader,
    Shutdown,
}

/// Whether node `id` is a ready member: it is not shut down, and either it
/// is a voter in a non-learner role, or learner-only nodes are allowed, it is
/// a learner, and it is part of the membership.
pub open spec fn ready_member(
    id: NodeId,
    learner_only: bool,
    state: ServerState,
    voters: Seq<NodeId>,
    nodes: Seq<NodeId>,
) -> bool {
    &&& state != ServerState::Shutdown
    &&& (state != ServerState::Learner && voters.contains(id)) || (learner_only && state
        == ServerState::Learner && nodes.contains(id))
}

/// A node that is shut down is never a ready member, whatever the
/// membership says; a voter in any other role than learner always is.
pub proof fn law_shutdown_is_never_ready(
    id: NodeId,
    learner_only: bool,
    state: ServerState,
    voters: Seq<NodeId>,
    nodes: Seq<NodeId>,
)
    ensures
        state == ServerState::Shutdown ==> !ready_member(id, learner_only, state, voters, nodes),
        state != ServerState::Shutdown && state != ServerState::Learner && voters.contains(id)
            ==> ready_member(id, learner_only, state, voters, nodes),
{
}

/// The message of a node that is not a ready member.
pub open spec fn not_ready_message(raft_label: Seq<char>) -> Seq<char> {
    "not yet a ready member of the "@ + raft_label + " raft"@
}

/// `Ok` when node `id` is a ready member of the group labelled
/// `raft_label`, else the error that says it is not yet one.
pub fn ensure_ready_member(
    id: NodeId,
    learner_only: bool,
    state: ServerState,
    membership_config: &MembershipView,
    raft_label: &str,
) -> (r: Result<(), Error>)
    ensures
        r is Ok <==> ready_member(
            id,
            learner_only,
            state,
            membership_config.voter_ids@,
            membership_config.node_ids@,
        ),
        r matches Err(e) ==> e@ == ErrorView::Error(not_ready_message(raft_label@)),
{
    if state == ServerState::Shutdown {
        return Err(not_ready(raft_label));
    }
    if state != ServerState::Learner && contains_id(membership_config.voter_ids.as_slice(), id) {
        return Ok(());
    }
    if learner_only && state == ServerState::Learner && contains_id(
        membership_config.node_ids.as_slice(),
        id,
    ) {
        return Ok(());
    }
    Err(not_ready(raft_label))
}

fn not_ready(raft_label: &str) -> (e: Error)
    ensures
        e@ == ErrorView::Error(not_ready_message(raft_label@)),
{
    let mut m = String::new();
    m.append("not yet a ready member of the ");
    m.append(raft_label);
    m.append(" raft");
    Error::Error(m)
}

/// The consensus groups a node's readiness is checked for.
#[derive(Debug, Clone, Copy, PartialEq, Eq, Structural)]
pub enum ReadyGroup {
    Sqlite,
    Cache,
}

/// What the readiness check reads of one consensus group.
#[derive(Debug, Clone)]
pub struct RaftReadiness {
    /// The group finished its startup.
    pub startup_finished: bool,
    /// The group is initialized.
    pub initialized: bool,
    /// The group is stopped.
    pub stopped: bool,
    /// The node's role in the group.
    pub state: ServerState,
    /// The group's committed membership.
    pub membership: MembershipView,
    /// The group knows its current leader.
    pub has_leader: bool,
}

/// The label of a group in messages.
pub open spec fn group_label(group: ReadyGroup) -> Seq<char> {
    match group {
        ReadyGroup::Sqlite => "sqlite"@,
        ReadyGroup::Cache => "cache"@,
    }
}

/// The message while a group's leader vote is in progress.
pub open spec fn vote_in_progress_message(group: ReadyGroup) -> Seq<char> {
    match group {
        ReadyGroup::Sqlite => "sqlite raft leader vote in progress"@,
        ReadyGroup::Cache => "cache raft leader vote in progress - secs_since_start: {secs_since_start}"@,
    }
}

/// Whether node `id` is a pristine node 1: node 1, not initialized, more
/// than ten seconds after its start. It is ready so that it can found the
/// cluster.
pub open spec fn pristine_node_1(id: NodeId, initialized: bool, secs_since_start: i64) -> bool {
    id == 1 && !initialized && secs_since_start > 10
}

/// Why node `id` is not ready in `group`, or `None` when it is.
pub open spec fn group_not_ready(
    id: NodeId,
    learner_only: bool,
    secs_since_start: i64,
    group: ReadyGroup,
    r: RaftReadiness,
) -> Option<Seq<char>> {
    if !r.startup_finished {
        Some("Node is still starting up ("@ + group_label(group) + ")"@)
    } else if pristine_node_1(id, r.initialized, secs_since_start) {
        None
    } else if r.stopped {
        Some(group_label(group) + " raft is not running"@)
    } else if !ready_member(id, learner_only, r.state, r.membership.voter_ids@, r.membership.node_ids@) {
        Some(not_ready_message(group_label(group)))
    } else if !r.has_leader && (id != 1 || secs_since_start < 10) {
        Some(vote_in_progress_message(group))
    } else {
        None
    }
}

/// Whether node `id` is ready in `group`, as `group_not_ready` says.
pub fn group_ready(
    id: NodeId,
    learner_only: bool,
    secs_since_start: i64,
    group: ReadyGroup,
    r: &RaftReadiness,
) -> (res: Result<(), Error>)
    ensures
        res is Ok <==> group_not_ready(id, learner_only, secs_since_start, group, *r) is None,
        res matches Err(e) ==> group_not_ready(id, learner_only, secs_since_start, group, *r)
            matches Some(m) && e@ == ErrorView::Error(m),
{
    let label = match group {
        ReadyGroup::Sqlite => "sqlite",
        ReadyGroup::Cache => "cache",
    };
    proof {
        reveal_strlit("sqlite");
        reveal_strlit("cache");
    }
    if !r.startup_finished {
        let mut m = String::from_str("Node is still starting up (");
        m.append(label);
        m.append(")");
        return Err(Error::Error(m));
    }
    if id == 1 && !r.initialized && secs_since_start > 10 {
        return Ok(());
    }
    if r.stopped {
        let mut m = String::from_str(label);
        m.append(" raft is not running");
        return Err(Error::Error(m));
    }
    match ensure_ready_member(id, learner_only, r.state, &r.membership, label) {
        Ok(()) => {},
        Err(e) => {
            return Err(e);
        },
    }
    if !r.has_leader && (id != 1 || secs_since_start < 10) {
        let m = match group {
            ReadyGroup::Sqlite => String::from_str("sqlite raft leader vote in progress"),
            ReadyGroup::Cache => String::from_str(
                "cache raft leader vote in progress - secs_since_start: {secs_since_start}",
            ),
        };
        return Err(Error::Error(m));
    }
    Ok(())
}

/// Why the node is not ready, or `None` when it is: a node shutting down
/// never is; else the database group, then the cache group, each where the
/// node runs one.
pub open spec fn node_not_ready(
    shutting_down: bool,
    id: NodeId,
    learner_only: bool,
    secs_since_start: i64,
    db: Option<RaftReadiness>,
    cache: Option<RaftReadiness>,
) -> Option<Seq<char>> {
    if shutting_down {
        Some("Node is shutting down"@)
    } else {
        let db_error = match db {
            Some(r) => group_not_ready(id, learner_only, secs_since_start, ReadyGroup::Sqlite, r),
            None => None,
        };
        match db_error {
            Some(m) => Some(m),
            None => match cache {
                Some(r) => group_not_ready(id, learner_only, secs_since_start, ReadyGroup::Cache, r),
                None => None,
            },
        }
    }
}

/// The readiness check of a node: `Ok` when it is ready, else the error
/// that `node_not_ready` names.
pub fn ready(
    shutting_down: bool,
    id: NodeId,
    learner_only: bool,
    secs_since_start: i64,
    db: Option<&RaftReadiness>,
    cache: Option<&RaftReadiness>,
) -> (res: Result<(), Error>)
    ensures
        ({
            let db_v = match db { Some(r) => Some(*r), None => None };
            let cache_v = match cache { Some(r) => Some(*r), None => None };
            &&& res is Ok <==> node_not_ready(shutting_down, id, learner_only, secs_since_start, db_v, cache_v) is None
            &&& res matches Err(e) ==> node_not_ready(shutting_down, id, learner_only, secs_since_start, db_v, cache_v)
                matches Some(m) && e@ == ErrorView::Error(m)
        }),
{
    if shutting_down {
        let r = Error::Error(String::from_str("Node is shutting down"));
        proof {
            reveal_strlit("Node is shutting down");
        }
        return Err(r);
    }
    match db {
        Some(r) => match group_ready(id, learner_only, secs_since_start, ReadyGroup::Sqlite, r) {
            Ok(()) => {},
            Err(e) => {
                return Err(e);
            },
        },
        None => {},
    }
    match cache {
        Some(r) => group_ready(id, learner_only, secs_since_start, ReadyGroup::Cache, r),
        None => Ok(()),
    }
}

/// A pristine node 1 is ready once it finished its startup, whatever its
/// role and membership, so that it can found the cluster; a node that shuts
/// down never is.
pub proof fn law_pristine_node_1_is_ready(
    learner_only: bool,
    secs_since_start: i64,
    group: ReadyGroup,
    r: RaftReadiness,
)
    requires
        r.startup_finished,
        pristine_node_1(1, r.initialized, secs_since_start),
    ensures
        group_not_ready(1, learner_only, secs_since_start, group, r) is None,
        node_not_ready(true, 1, learner_only, secs_since_start, Some(r), Some(r)) is Some,
{
}

/// What the health check reads of one consensus group.
#[derive(Debug, Clone)]
pub struct GroupHealth {
    /// The error the group stopped with, if it did.
    pub running_error: Option<Error>,
    /// The group knows its current leader.
    pub has_leader: bool,
}

/// The message while a group has no leader yet.
pub open spec fn no_leader_message(group: ReadyGroup) -> Seq<char> {
    match group {
        ReadyGroup::Sqlite => "The leader voting process has not finished yet for Raft DB"@,
        ReadyGroup::Cache => "The leader voting process has not finished yet Raft Cache"@,
    }
}

/// Why a group is unhealthy, or `None`: a stopped group reports the error
/// it stopped with, a group without leader a leader change.
pub open spec fn group_unhealthy(group: ReadyGroup, h: GroupHealth) -> Option<ErrorView> {
    match h.running_error {
        Some(e) => Some(e@),
        None => if !h.has_leader {
            Some(ErrorView::LeaderChange(no_leader_message(group)))
        } else {
            None
        },
    }
}

/// Why the node is unhealthy, or `None`: within the startup delay it is
/// always healthy; else the database group, then the cache group, each where
/// the node runs one.
pub open spec fn node_unhealthy(early: bool, db: Option<GroupHealth>, cache: Option<GroupHealth>) -> Option<
    ErrorView,
> {
    if early {
        None
    } else {
        let db_error = match db {
            Some(h) => group_unhealthy(ReadyGroup::Sqlite, h),
            None => None,
        };
        match db_error {
            Some(e) => Some(e),
            None => match cache {
                Some(h) => group_unhealthy(ReadyGroup::Cache, h),
                None => None,
            },
        }
    }
}

/// Whether a group is fully healthy: running, with a known leader.
pub open spec fn group_sound(h: GroupHealth) -> bool {
    h.running_error is None && h.has_leader
}

/// A group that stopped with an error is never healthy, whatever it says
/// of its leader: outside the startup delay the node reports that error,
/// for the database group always and for the cache group when the database
/// group (if any) is sound. A healthy node, outside the delay, runs only
/// sound groups.
pub proof fn law_stopped_group_is_unhealthy(
    early: bool,
    db: Option<GroupHealth>,
    cache: Option<GroupHealth>,
    e: Error,
)
    ensures
        !early && db is Some && db->0.running_error == Some(e) ==> node_unhealthy(early, db, cache)
            == Some(e@),
        !early && (db is Some ==> group_sound(db->0)) && cache is Some && cache->0.running_error
            == Some(e) ==> node_unhealthy(early, db, cache) == Some(e@),
        !early && node_unhealthy(early, db, cache) is None ==> (db is Some ==> group_sound(db->0))
            && (cache is Some ==> group_sound(cache->0)),
        early ==> node_unhealthy(early, db, cache) is None,
{
}

fn group_health(group: ReadyGroup, h: GroupHealth) -> (r: Result<(), Error>)
    ensures
        r is Ok <==> group_unhealthy(group, h) is None,
        r matches Err(e) ==> group_unhealthy(group, h) == Some(e@),
{
    match h.running_error {
        Some(e) => Err(e),
        None => {
            if !h.has_leader {
                let m = match group {
                    ReadyGroup::Sqlite => String::from_str(
                        "The leader voting process has not finished yet for Raft DB",
                    ),
                    ReadyGroup::Cache => String::from_str(
                        "The leader voting process has not finished yet Raft Cache",
                    ),
                };
                Err(Error::LeaderChange(m))
            } else {
                Ok(())
            }
        },
    }
}

/// The health check of a node, `early` telling whether it runs within the
/// configured delay after the start: `Ok` when healthy, else the error that
/// `node_unhealthy` names.
pub fn check_health(early: bool, db: Option<GroupHealth>, cache: Option<GroupHealth>) -> (r: Result<
    (),
    Error,
>)
    ensures
        r is Ok <==> node_unhealthy(early, db, cache) is None,
        r matches Err(e) ==> node_unhealthy(early, db, cache) == Some(e@),
{
    if early {
        return Ok(());
    }
    match db {
        Some(h) => match group_health(ReadyGroup::Sqlite, h) {
            Ok(()) => {},
            Err(e) => {
                return Err(e);
            },
        },
        None => {},
    }
    match cache {
        Some(h) => group_health(ReadyGroup::Cache, h),
        None => Ok(()),
    }
}

} // verus!
