//! Which nodes a split-brain check asks for their membership, where it asks
//! them, and which configured nodes a remote membership lacks.

use crate::client::scheme_text;
use crate::network::management::contains_id;
use crate::node::{Node, NodeId};
use vstd::prelude::*;

verus! {

/// The configured nodes other than the expected leader, in order.
pub open spec fn others_than(nodes: Seq<Node>, leader: NodeId) -> Seq<Node>
    decreases nodes.len(),
{
    if nodes.len() == 0 {
        Seq::empty()
    } else {
        let front = others_than(nodes.drop_last(), leader);
        if nodes.last().id != leader {
            front.push(nodes.last())
        } else {
            front
        }
    }
}

/// The expected leader is never asked: every node to check is another one,
/// and no more nodes are asked than are configured.
pub proof fn law_leader_is_never_checked(nodes: Seq<Node>, leader: NodeId)
    ensures
        forall|i: int| 0 <= i < others_than(nodes, leader).len() ==> (#[trigger] others_than(nodes, leader)[i]).id != leader,
        others_than(nodes, leader).len() <= nodes.len(),
    decreases nodes.len(),
{
    if nodes.len() > 0 {
        law_leader_is_never_checked(nodes.drop_last(), leader);
        let front = others_than(nodes.drop_last(), leader);
        assert forall|i: int| 0 <= i < others_than(nodes, leader).len() implies (#[trigger] others_than(nodes, leader)[i]).id != leader by {
            if i < front.len() {
                assert(others_than(nodes, leader)[i] == front[i]);
            }
        }
    }
}

/// The nodes to compare memberships with: every configured node but the
/// expected leader.
pub fn nodes_to_check(nodes: &[Node], leader_expected: NodeId) -> (r: Vec<Node>)
    ensures
        r@ == others_than(nodes@, leader_expected),
{
    let mut out: Vec<Node> = Vec::new();
    let mut i: usize = 0;
    while i < nodes.len()
        invariant
            i <= nodes@.len(),
            out@ == others_than(nodes@.take(i as int), leader_expected),
        decreases nodes@.len() - i,
    {
        assert(nodes@.take(i + 1).drop_last() =~= nodes@.take(i as int));
        if nodes[i].id != leader_expected {
            out.push(nodes[i].duplicate());
        }
        i = i + 1;
    }
    assert(nodes@.take(nodes@.len() as int) =~= nodes@);
    out
}

/// `<scheme>://<addr_api>/cluster/metrics/<path>`.
pub fn metrics_url(tls: bool, addr_api: &str, path: &str) -> (r: String)
    ensures
        r@ == scheme_text(tls) + "://"@ + addr_api@ + "/cluster/metrics/"@ + path@,
{
    let mut out = if tls {
        String::from_str("https")
    } else {
        String::from_str("http")
    };
    out.append("://");
    out.append(addr_api);
    out.append("/cluster/metrics/");
    out.append(path);
    out
}

/// The ids of the configured nodes that are not members, in order.
pub open spec fn missing_ids(nodes: Seq<Node>, members: Seq<NodeId>) -> Seq<NodeId>
    decreases nodes.len(),
{
    if nodes.len() == 0 {
        Seq::empty()
    } else {
        let front = missing_ids(nodes.drop_last(), members);
        if !members.contains(nodes.last().id) {
            front.push(nodes.last().id)
        } else {
            front
        }
    }
}

/// Every configured node that the membership lacks is reported, and only
/// such nodes are: each reported id is the id of a configured node that is
/// not a member, and no more ids are reported than nodes are configured.
pub proof fn law_every_missing_node_is_reported(nodes: Seq<Node>, members: Seq<NodeId>)
    ensures
        forall|i: int|
            0 <= i < nodes.len() && !members.contains(#[trigger] nodes[i].id) ==> missing_ids(
                nodes,
                members,
            ).contains(nodes[i].id),
        forall|j: int|
            0 <= j < missing_ids(nodes, members).len() ==> !members.contains(
                #[trigger] missing_ids(nodes, members)[j],
            ) && exists|i: int| 0 <= i < nodes.len() && nodes[i].id == missing_ids(nodes, members)[j],
        missing_ids(nodes, members).len() <= nodes.len(),
    decreases nodes.len(),
{
    if nodes.len() > 0 {
        let init = nodes.drop_last();
        law_every_missing_node_is_reported(init, members);
        let front = missing_ids(init, members);
        let all = missing_ids(nodes, members);
        assert forall|i: int|
            0 <= i < nodes.len() && !members.contains(#[trigger] nodes[i].id) implies all.contains(
            nodes[i].id,
        ) by {
            if i < nodes.len() - 1 {
                assert(init[i] == nodes[i]);
                let k = choose|k: int| 0 <= k < front.len() && front[k] == nodes[i].id;
                assert(all[k] == front[k]);
            } else {
                assert(all[all.len() - 1] == nodes[i].id);
            }
        }
        assert forall|j: int| 0 <= j < all.len() implies !members.contains(#[trigger] all[j])
            && exists|i: int| 0 <= i < nodes.len() && nodes[i].id == all[j] by {
            if j < front.len() {
                assert(all[j] == front[j]);
                let i = choose|i: int| 0 <= i < init.len() && init[i].id == front[j];
                assert(nodes[i] == init[i]);
            } else {
                assert(nodes[nodes.len() - 1].id == all[j]);
            }
        }
    }
}

/// The ids of the configured nodes that a membership does not hold; each
/// is a possible split brain, or a node that is offline or starting.
pub fn check_nodes_in_members(nodes: &[Node], members: &[NodeId]) -> (r: Vec<NodeId>)
    ensures
        r@ == missing_ids(nodes@, members@),
{
    let mut out: Vec<NodeId> = Vec::new();
    let mut i: usize = 0;
    while i < nodes.len()
        invariant
            i <= nodes@.len(),
            out@ == missing_ids(nodes@.take(i as int), members@),
        decreases nodes@.len() - i,
    {
        assert(nodes@.take(i + 1).drop_last() =~= nodes@.take(i as int));
        if !contains_id(members, nodes[i].id) {
            out.push(nodes[i].id);
        }
        i = i + 1;
    }
    assert(nodes@.take(nodes@.len() as int) =~= nodes@);
    out
}

} // verus!
