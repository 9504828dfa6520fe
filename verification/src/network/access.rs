//! Access checks of the node's HTTP API: the shared API secret and whether
//! this node is the leader that must serve a request.

use crate::error::{Error, ErrorView};
use crate::external::commit::bytes_equal;
use crate::node::{Node, NodeId};
use vstd::prelude::*;
use vstd::utf8::encode_utf8;

verus! {

/// The header that carries the API secret.
pub const HEADER_NAME_SECRET: &'static str = "X-API-SECRET";

/// `Ok` when the request carries the API secret: `Token("API Secret
/// missing")` without the header, `Token("Invalid API Secret")` when its
/// bytes differ from the secret's.
pub fn validate_secret(secret_api: &str, header: Option<&[u8]>) -> (r: Result<(), Error>)
    ensures
        header is None ==> (r matches Err(e) && e@ == ErrorView::Token("API Secret missing"@)),
        header matches Some(h) ==> (r is Ok <==> h@ == encode_utf8(secret_api@)),
        header is Some ==> (r matches Err(e) ==> e@ == ErrorView::Token("Invalid API Secret"@)),
{
    match header {
        None => Err(Error::Token(String::from_str("API Secret missing"))),
        Some(h) => {
            if !bytes_equal(secret_api.as_bytes(), h) {
                Err(Error::Token(String::from_str("Invalid API Secret")))
            } else {
                Ok(())
            }
        },
    }
}

/// Whether this node may serve a leader request.
#[derive(Debug, Clone)]
pub enum LeaderCheck {
    /// This node is the leader.
    Leader,
    /// Another node leads: forward to it.
    Forward(Node),
    /// The leader is not part of the membership.
    LeaderUnknown(NodeId),
    /// No leader is elected yet.
    ElectionInProgress,
}

/// The position of the first member with id `id`, or `members.len()`.
pub open spec fn member_index(members: Seq<Node>, id: NodeId) -> int
    decreases members.len(),
{
    if members.len() == 0 {
        0
    } else if members[0].id == id {
        0
    } else {
        1 + member_index(members.drop_first(), id)
    }
}

proof fn lemma_member_index(members: Seq<Node>, id: NodeId)
    ensures
        0 <= member_index(members, id) <= members.len(),
        forall|j: int| 0 <= j < member_index(members, id) ==> members[j].id != id,
        member_index(members, id) < members.len() ==> members[member_index(members, id)].id == id,
    decreases members.len(),
{
    if members.len() > 0 && members[0].id != id {
        lemma_member_index(members.drop_first(), id);
        assert forall|j: int| 0 <= j < member_index(members, id) implies members[j].id != id by {
            if j > 0 {
                assert(members[j] == members.drop_first()[j - 1]);
            }
        }
        if member_index(members, id) < members.len() {
            assert(members[member_index(members, id)] == members.drop_first()[member_index(
                members.drop_first(),
                id,
            )]);
        }
    }
}

/// What serving a leader request on node `this_id` leads to, given the
/// current leader and the members.
pub open spec fn leader_check_of(leader: Option<NodeId>, this_id: NodeId, members: Seq<Node>) -> LeaderCheck {
    match leader {
        None => LeaderCheck::ElectionInProgress,
        Some(l) => if l == this_id {
            LeaderCheck::Leader
        } else if member_index(members, l) < members.len() {
            LeaderCheck::Forward(members[member_index(members, l)])
        } else {
            LeaderCheck::LeaderUnknown(l)
        },
    }
}

/// Whether node `this_id` is the leader, and where to forward otherwise.
pub fn leader_check(leader: Option<NodeId>, this_id: NodeId, members: &[Node]) -> (r: LeaderCheck)
    ensures
        r == leader_check_of(leader, this_id, members@),
{
    proof {
        if leader is Some {
            lemma_member_index(members@, leader->0);
        }
    }
    match leader {
        None => LeaderCheck::ElectionInProgress,
        Some(l) => {
            if l == this_id {
                return LeaderCheck::Leader;
            }
            let mut i: usize = 0;
            while i < members.len()
                invariant
                    leader == Some(l),
                    l != this_id,
                    i <= members@.len(),
                    forall|j: int| 0 <= j < i ==> members@[j].id != l,
                    0 <= member_index(members@, l) <= members@.len(),
                    forall|j: int| 0 <= j < member_index(members@, l) ==> members@[j].id != l,
                    member_index(members@, l) < members@.len() ==> members@[member_index(members@, l)].id == l,
                decreases members@.len() - i,
            {
                if members[i].id == l {
                    assert(member_index(members@, l) == i) by {
                        if member_index(members@, l) < i {
                            assert(members@[member_index(members@, l)].id == l);
                        }
                        if member_index(members@, l) > i {
                            assert(members@[i as int].id != l);
                        }
                    }
                    return LeaderCheck::Forward(members[i].duplicate());
                }
                i = i + 1;
            }
            LeaderCheck::LeaderUnknown(l)
        },
    }
}

} // verus!
