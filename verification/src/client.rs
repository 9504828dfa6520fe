//! How a client follows the leader of the cluster.

use crate::error::{forward_of, Error};
use crate::node::{Node, NodeId};
use vstd::prelude::*;

verus! {

/// The scheme of a request: `https` with TLS, else `http`.
pub open spec fn scheme_text(tls: bool) -> Seq<char> {
    if tls {
        "https"@
    } else {
        "http"@
    }
}

/// `<scheme>://<addr><path>`.
pub fn request_url(tls: bool, addr: &str, path: &str) -> (r: String)
    ensures
        r@ == scheme_text(tls) + "://"@ + addr@ + path@,
{
    let mut out = if tls {
        String::from_str("https")
    } else {
        String::from_str("http")
    };
    out.append("://");
    out.append(addr);
    out.append(path);
    out
}

/// The leader id and API address a forward-to-leader error names, when it
/// names both.
pub open spec fn forward_target(e: Error) -> Option<(NodeId, Seq<char>)> {
    match forward_of(e) {
        Some(f) => match (f.leader_id, f.leader_node) {
            (Some(id), Some(n)) => Some((id, n.addr_api@)),
            _ => None,
        },
        None => None,
    }
}

/// The leader id and address after an error, and whether they changed: a
/// forward to another leader switches to it, anything else keeps the leader.
pub open spec fn leader_after_error(id: NodeId, addr: Seq<char>, e: Error) -> (NodeId, Seq<char>, bool) {
    match forward_target(e) {
        Some((nid, naddr)) => if nid != id {
            (nid, naddr, true)
        } else {
            (id, addr, false)
        },
        None => (id, addr, false),
    }
}

/// A forward error is followed once: handling the same error again changes
/// nothing, so one leader change triggers one reconnect.
pub proof fn law_leader_update_once(id: NodeId, addr: Seq<char>, e: Error)
    ensures
        ({
            let (id1, addr1, _) = leader_after_error(id, addr, e);
            leader_after_error(id1, addr1, e) == (id1, addr1, false)
        }),
{
}

/// The leader a client sends its requests to.
#[derive(Debug, Clone)]
pub struct LeaderAddr {
    pub id: NodeId,
    pub api_addr: String,
}

impl LeaderAddr {
    /// The URL of `path` on the leader.
    pub fn build_addr(&self, tls: bool, path: &str) -> (r: String)
        ensures
            r@ == scheme_text(tls) + "://"@ + self.api_addr@ + path@,
    {
        request_url(tls, self.api_addr.as_str(), path)
    }

    /// Follows a forward-to-leader error that names both the leader's id
    /// and node: switches to that leader when it is another one. Returns
    /// whether the leader changed; any other error changes nothing.
    pub fn was_leader_update_error(&mut self, err: &Error) -> (changed: bool)
        ensures
            (final(self).id, final(self).api_addr@, changed) == leader_after_error(
                old(self).id,
                old(self).api_addr@,
                *err,
            ),
            !changed ==> *final(self) == *old(self),
    {
        match err.is_forward_to_leader() {
            Some((Some(id), Some(node))) => {
                if self.id != id {
                    self.id = id;
                    self.api_addr = node.addr_api;
                    true
                } else {
                    false
                }
            },
            _ => false,
        }
    }

    /// Takes the leader announced by the cluster when both its id and node
    /// are known; otherwise keeps the current one.
    pub fn update_leader(&mut self, node_id: Option<u64>, node: Option<&Node>)
        ensures
            (node_id is Some && node is Some) ==> final(self).id == node_id->0
                && final(self).api_addr@ == node->0.addr_api@,
            !(node_id is Some && node is Some) ==> *final(self) == *old(self),
    {
        match (node_id, node) {
            (Some(id), Some(n)) => {
                self.id = id;
                self.api_addr = n.addr_api.clone();
            },
            _ => {},
        }
    }
}

/// The attempt after attempt `attempt` (counted from `0`) of a request to
/// the leader was answered with an error: none after the third.
pub open spec fn next_attempt(attempt: nat) -> Option<nat> {
    if attempt >= 2 {
        None
    } else {
        Some(attempt + 1)
    }
}

/// Whether a request answered with an error at attempt `attempt` is sent
/// again: `Some` carries the next attempt, `None` hands the error back.
pub fn retry_after_error(attempt: u32) -> (r: Option<u32>)
    ensures
        r is None <==> next_attempt(attempt as nat) is None,
        r matches Some(n) ==> next_attempt(attempt as nat) == Some(n as nat),
{
    if attempt >= 2 {
        None
    } else {
        Some(attempt + 1)
    }
}

/// How often a request answered with errors only is sent, from attempt
/// `attempt` on.
pub open spec fn attempts_from(attempt: nat) -> nat
    decreases 3 - attempt,
{
    match next_attempt(attempt) {
        Some(n) => 1 + attempts_from(n),
        None => 1,
    }
}

/// A request answered with errors only is sent three times, no more.
pub proof fn law_three_attempts_at_most()
    ensures
        attempts_from(0) == 3,
{
    assert(attempts_from(2) == 1);
    assert(attempts_from(1) == 2);
}

/// Whether the local node is the leader a client follows: the client runs
/// inside node `local_id` (when it does) and follows `leader_id`.
pub fn is_local_leader(local_id: Option<NodeId>, leader_id: NodeId) -> (r: bool)
    ensures
        r == (local_id == Some(leader_id)),
{
    match local_id {
        Some(id) => id == leader_id,
        None => false,
    }
}

} // verus!
