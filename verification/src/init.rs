//! The decisions a node takes while it joins its cluster at startup: whether
//! node 1 founds a new cluster, whether a node is still a member somewhere,
//! and how each answer to a join or leave request is taken. The requests and
//! the waiting between them are the caller's.

use crate::error::{forward_of, Error};
use crate::network::management::contains_id;
use crate::node::NodeId;
use vstd::prelude::*;

verus! {

/// How a remote node answered the request for its membership.
pub enum MembershipReply {
    /// The remote is initialized; its membership has this many nodes.
    Members(usize),
    /// The remote answered with an error: it is not initialized either.
    Refused,
    /// The remote could not be reached.
    Unreachable,
}

/// What node 1 does after one answer.
#[derive(Debug, Clone, Copy, PartialEq, Eq, Structural)]
pub enum ProbeStep {
    /// Ask the next node.
    Continue,
    /// A cluster exists already: node 1 skips its own initialization.
    SkipInit,
    /// Enough nodes are not initialized: node 1 founds the cluster.
    InitHere,
    /// A remote is initialized but has no members, which cannot happen in a
    /// sound cluster.
    InconsistentRemote,
}

/// The number of not-initialized nodes (node 1 counted) after which node 1
/// founds the cluster: half the configured nodes, rounded down.
pub open spec fn init_quorum(nodes_len: nat) -> nat {
    nodes_len / 2
}

/// The nodes node 1 skips and the step it takes after `reply` from node
/// `id`.
pub open spec fn probe_step(skip: Seq<u64>, quorum: nat, id: u64, reply: MembershipReply) -> (
    Seq<u64>,
    ProbeStep,
) {
    match reply {
        MembershipReply::Members(count) => if count > 0 {
            (skip, ProbeStep::SkipInit)
        } else {
            (skip, ProbeStep::InconsistentRemote)
        },
        MembershipReply::Refused => {
            let next = skip.push(id);
            (next, if next.len() >= quorum {
                ProbeStep::InitHere
            } else {
                ProbeStep::Continue
            })
        },
        MembershipReply::Unreachable => (skip, if skip.len() >= quorum {
            ProbeStep::InitHere
        } else {
            ProbeStep::Continue
        }),
    }
}

/// Node 1 asking the other configured nodes whether a cluster exists before
/// it founds one: the nodes it no longer asks (itself and those found not
/// initialized) and the quorum of such nodes.
pub struct Node1InitProbe {
    pub skip_nodes: Vec<u64>,
    pub quorum: usize,
}

impl Node1InitProbe {
    /// Starts asking among `nodes_len` configured nodes; with fewer than two
    /// there is nobody to ask and node 1 founds the cluster (`None`).
    pub fn new(nodes_len: usize) -> (r: Option<Node1InitProbe>)
        ensures
            nodes_len < 2 <==> r is None,
            r matches Some(p) ==> p.skip_nodes@ == seq![1u64] && p.quorum == init_quorum(
                nodes_len as nat,
            ),
    {
        if nodes_len < 2 {
            return None;
        }
        let mut skip_nodes: Vec<u64> = Vec::new();
        skip_nodes.push(1);
        Some(Node1InitProbe { skip_nodes, quorum: nodes_len / 2 })
    }

    /// Whether node `id` is still to be asked.
    pub fn should_ask(&self, id: NodeId) -> (r: bool)
        ensures
            r == !self.skip_nodes@.contains(id),
    {
        !contains_id(self.skip_nodes.as_slice(), id)
    }

    /// Takes `reply` from node `id` into account, as `probe_step` says.
    pub fn after_reply(&mut self, id: NodeId, reply: MembershipReply) -> (r: ProbeStep)
        ensures
            (final(self).skip_nodes@, r) == probe_step(
                old(self).skip_nodes@,
                old(self).quorum as nat,
                id,
                reply,
            ),
            final(self).quorum == old(self).quorum,
    {
        match reply {
            MembershipReply::Members(count) => {
                if count > 0 {
                    ProbeStep::SkipInit
                } else {
                    ProbeStep::InconsistentRemote
                }
            },
            MembershipReply::Refused => {
                self.skip_nodes.push(id);
                if self.skip_nodes.len() >= self.quorum {
                    ProbeStep::InitHere
                } else {
                    ProbeStep::Continue
                }
            },
            MembershipReply::Unreachable => {
                if self.skip_nodes.len() >= self.quorum {
                    ProbeStep::InitHere
                } else {
                    ProbeStep::Continue
                }
            },
        }
    }
}

/// Node 1 founds a cluster only once at least a quorum of nodes is known
/// not to be initialized, skips only on a remote that reports members, and
/// forgets no node it stopped asking.
pub proof fn law_node_1_inits_only_with_quorum(
    skip: Seq<u64>,
    quorum: nat,
    id: u64,
    reply: MembershipReply,
)
    ensures
        ({
            let (next, step) = probe_step(skip, quorum, id, reply);
            &&& step == ProbeStep::InitHere ==> next.len() >= quorum
            &&& step == ProbeStep::SkipInit ==> (reply matches MembershipReply::Members(c) && c > 0)
            &&& next.len() >= skip.len()
            &&& forall|i: int| 0 <= i < skip.len() ==> next[i] == skip[i]
        }),
{
}

/// Whether this node is a member of the cluster a remote reports: the ids of
/// the remote's membership, or `None` when the remote gave none.
pub fn remote_member_verdict(this_node: NodeId, remote_ids: Option<&[NodeId]>) -> (r: Option<bool>)
    ensures
        r == (match remote_ids {
            Some(ids) => Some(ids@.contains(this_node)),
            None => None,
        }),
{
    match remote_ids {
        Some(ids) => Some(contains_id(ids, this_node)),
        None => None,
    }
}

/// How a remote node answered a request to add this node as a learner or a
/// voter.
pub enum BecomeReply {
    Accepted,
    Refused(Error),
    Unreachable,
}

/// What this node does after one answer to its join request.
#[derive(Debug, Clone, Copy, PartialEq, Eq, Structural)]
pub enum BecomeStep {
    /// The request succeeded.
    Done,
    /// The remote names this very node as the leader: it became the leader in
    /// the meantime.
    LeaderIsThisNode,
    /// Try the next node.
    TryNext,
}

/// The step after `reply`: a refusal that forwards to a leader with a known
/// node and this node's id means this node leads already.
pub open spec fn become_step_of(this_node: NodeId, reply: BecomeReply) -> BecomeStep {
    match reply {
        BecomeReply::Accepted => BecomeStep::Done,
        BecomeReply::Refused(e) => match forward_of(e) {
            Some(f) => if f.leader_id == Some(this_node) && f.leader_node is Some {
                BecomeStep::LeaderIsThisNode
            } else {
                BecomeStep::TryNext
            },
            None => BecomeStep::TryNext,
        },
        BecomeReply::Unreachable => BecomeStep::TryNext,
    }
}

/// The step this node takes after `reply` to its join request.
pub fn become_step(this_node: NodeId, reply: &BecomeReply) -> (r: BecomeStep)
    ensures
        r == become_step_of(this_node, *reply),
{
    match reply {
        BecomeReply::Accepted => BecomeStep::Done,
        BecomeReply::Refused(e) => match e.is_forward_to_leader() {
            Some((Some(leader_id), Some(_))) => {
                if leader_id == this_node {
                    BecomeStep::LeaderIsThisNode
                } else {
                    BecomeStep::TryNext
                }
            },
            _ => BecomeStep::TryNext,
        },
        BecomeReply::Unreachable => BecomeStep::TryNext,
    }
}

/// Whether the consensus group counts as initialized for this node, checked
/// once before and once after waiting for other nodes: before the wait only
/// a known membership that holds this node counts (`Some(true)`, else
/// `None`: wait); after it, an initialized group counts if it holds this
/// node.
pub fn initialized_before_wait(initialized: bool, this_node_is_member: bool) -> (r: Option<bool>)
    ensures
        r == (if initialized && this_node_is_member {
            Some(true)
        } else {
            None::<bool>
        }),
{
    if initialized && this_node_is_member {
        Some(true)
    } else {
        None
    }
}

/// The verdict after the wait: initialized and holding this node.
pub fn initialized_after_wait(initialized: bool, this_node_is_member: bool) -> (r: bool)
    ensures
        r == (initialized && this_node_is_member),
{
    initialized && this_node_is_member
}

/// The error when no node accepted the request to leave the cluster.
pub fn leave_failed_error() -> (r: Error)
    ensures
        r@ == crate::error::ErrorView::Connect(
            "Could not leave the cluster after trying all nodes once"@,
        ),
{
    let r = Error::Connect(String::from_str("Could not leave the cluster after trying all nodes once"));
    proof {
        reveal_strlit("Could not leave the cluster after trying all nodes once");
    }
    r
}

} // verus!
