//! Membership requests between nodes, and the membership changes they lead
//! to.

use crate::node::NodeId;
use vstd::prelude::*;

verus! {

/// A request to be added as a learner, or to become a voter.
#[derive(Debug, Clone)]
pub struct LearnerReq {
    pub node_id: u64,
    pub addr_api: String,
    pub addr_raft: String,
}

/// A request to leave the cluster, optionally staying as a learner.
#[derive(Debug, Clone, Copy, PartialEq, Eq, Structural)]
pub struct ClusterLeaveReq {
    pub node_id: u64,
    pub stay_as_learner: bool,
}

/// The committed membership of a consensus group: the voters and all nodes
/// (voters and learners).
#[derive(Debug, Clone)]
pub struct MembershipView {
    pub voter_ids: Vec<NodeId>,
    pub node_ids: Vec<NodeId>,
}

/// Whether `id` occurs in `ids`.
pub fn contains_id(ids: &[NodeId], id: NodeId) -> (r: bool)
    ensures
        r == ids@.contains(id),
{
    let mut i: usize = 0;
    while i < ids.len()
        invariant
            i <= ids@.len(),
            forall|j: int| 0 <= j < i ==> ids@[j] != id,
        decreases ids@.len() - i,
    {
        if ids[i] == id {
            assert(ids@[i as int] == id);
            return true;
        }
        i = i + 1;
    }
    false
}

/// What leaving the cluster asks of the consensus group.
#[derive(Debug, Clone, Copy, PartialEq, Eq, Structural)]
pub enum LeaveAction {
    /// The node is no member: nothing to change.
    Nothing,
    /// Remove the node from the voters, keeping it as a learner when
    /// `stay_as_learner`.
    RemoveVoter { stay_as_learner: bool },
    /// Remove the node, a learner, from the cluster.
    RemoveLearner,
}

/// The change a leave request leads to: a voter is removed from the voters
/// (and stays a learner if asked), a learner that should not stay one is
/// removed, anything else is left as it is.
pub open spec fn leave_action_of(voters: Seq<NodeId>, nodes: Seq<NodeId>, req: ClusterLeaveReq) -> LeaveAction {
    if !nodes.contains(req.node_id) {
        LeaveAction::Nothing
    } else if voters.contains(req.node_id) {
        LeaveAction::RemoveVoter { stay_as_learner: req.stay_as_learner }
    } else if !req.stay_as_learner {
        LeaveAction::RemoveLearner
    } else {
        LeaveAction::Nothing
    }
}

/// The change a leave request leads to in the given membership.
pub fn leave_action(membership: &MembershipView, req: &ClusterLeaveReq) -> (r: LeaveAction)
    ensures
        r == leave_action_of(membership.voter_ids@, membership.node_ids@, *req),
{
    if !contains_id(membership.node_ids.as_slice(), req.node_id) {
        return LeaveAction::Nothing;
    }
    if contains_id(membership.voter_ids.as_slice(), req.node_id) {
        LeaveAction::RemoveVoter { stay_as_learner: req.stay_as_learner }
    } else if !req.stay_as_learner {
        LeaveAction::RemoveLearner
    } else {
        LeaveAction::Nothing
    }
}

/// The voter set after node `node_id` becomes a voter, or `None` when it is
/// a voter already.
pub fn become_member_voters(membership: &MembershipView, node_id: NodeId) -> (r: Option<Vec<NodeId>>)
    ensures
        r is None <==> membership.voter_ids@.contains(node_id),
        r matches Some(v) ==> v@.to_set() == membership.voter_ids@.to_set().insert(node_id),
{
    if contains_id(membership.voter_ids.as_slice(), node_id) {
        return None;
    }
    let mut v = membership.voter_ids.clone();
    assert(v@ == membership.voter_ids@);
    let ghost old_v = v@;
    v.push(node_id);
    proof {
        assert forall|x: NodeId| v@.to_set().contains(x) <==> old_v.to_set().insert(node_id).contains(x) by {
            if x == node_id {
                assert(v@[old_v.len() as int] == node_id);
            }
            if old_v.contains(x) {
                let k = choose|k: int| 0 <= k < old_v.len() && old_v[k] == x;
                assert(v@[k] == x);
            }
            if v@.contains(x) && x != node_id {
                let k = choose|k: int| 0 <= k < v@.len() && v@[k] == x;
                assert(old_v[k] == x);
            }
        }
        assert(v@.to_set() =~= old_v.to_set().insert(node_id));
    }
    Some(v)
}

/// After a node leaves without staying as a learner, a voter is removed
/// from the voters and a learner from the cluster; a node that stays as a
/// learner is never removed from the cluster.
pub proof fn law_leave_removes_member(voters: Seq<NodeId>, nodes: Seq<NodeId>, req: ClusterLeaveReq)
    requires
        nodes.contains(req.node_id),
    ensures
        voters.contains(req.node_id) ==> leave_action_of(voters, nodes, req)
            == (LeaveAction::RemoveVoter { stay_as_learner: req.stay_as_learner }),
        !voters.contains(req.node_id) && !req.stay_as_learner ==> leave_action_of(voters, nodes, req)
            == LeaveAction::RemoveLearner,
        req.stay_as_learner ==> leave_action_of(voters, nodes, req) != LeaveAction::RemoveLearner,
{
}

} // verus!
