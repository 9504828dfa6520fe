//! Cluster members, the cache index trait and the run state of the two
//! consensus groups a node takes part in.

use crate::decimal::{format_u64, int_text};
use vstd::prelude::*;

verus! {

/// The identifier of a cluster member.
pub type NodeId = u64;

/// A Raft / Hiqlite node.
#[derive(Debug, Clone)]
pub struct Node {
    /// Each Raft config must include one Node with `id == 1`. Node `1` takes
    /// care of init and setup if the Raft does not exist yet or if other nodes
    /// need to join.
    pub id: NodeId,
    /// The internal Raft address, separate from the API address. It should
    /// never be exposed to the public.
    pub addr_raft: String,
    /// The public API address, to which clients connect to reach the leader.
    pub addr_api: String,
}

impl PartialEq for Node {
    fn eq(&self, other: &Node) -> (r: bool) {
        self.id == other.id && self.addr_raft == other.addr_raft && self.addr_api == other.addr_api
    }
}

impl Eq for Node {

}

impl vstd::std_specs::cmp::PartialEqSpecImpl for Node {
    open spec fn obeys_eq_spec() -> bool {
        true
    }

    open spec fn eq_spec(&self, other: &Node) -> bool {
        self.id == other.id && self.addr_raft@ == other.addr_raft@ && self.addr_api@ == other.addr_api@
    }
}

impl Default for Node {
    fn default() -> (r: Node)
        ensures
            r.id == 0,
            r.addr_raft@ == Seq::<char>::empty(),
            r.addr_api@ == Seq::<char>::empty(),
    {
        Node { id: 0, addr_raft: String::new(), addr_api: String::new() }
    }
}

/// The text `Node { id: <id>, rpc_addr: <addr_raft>, api_addr: <addr_api> }`.
pub open spec fn node_text(n: Node) -> Seq<char> {
    "Node { id: "@ + int_text(n.id as int) + ", rpc_addr: "@ + n.addr_raft@ + ", api_addr: "@
        + n.addr_api@ + " }"@
}

impl Node {
    /// A copy of this node.
    pub fn duplicate(&self) -> (r: Node)
        ensures
            r == *self,
    {
        Node { id: self.id, addr_raft: self.addr_raft.clone(), addr_api: self.addr_api.clone() }
    }

    /// The display text of the node.
    pub fn to_string(&self) -> (r: String)
        ensures
            r@ == node_text(*self),
    {
        let mut out = String::new();
        out.append("Node { id: ");
        let id = format_u64(self.id);
        out.append(id.as_str());
        out.append(", rpc_addr: ");
        out.append(self.addr_raft.as_str());
        out.append(", api_addr: ");
        out.append(self.addr_api.as_str());
        out.append(" }");
        out
    }
}

/// Whether some node has id `id`.
pub open spec fn has_node(nodes: Seq<Node>, id: NodeId) -> bool {
    exists|i: int| 0 <= i < nodes.len() && #[trigger] nodes[i].id == id
}

/// The first node of the configuration whose id is `this_node`. The node
/// must be part of the configuration.
pub fn get_this_node(this_node: u64, nodes: &[Node]) -> (r: Node)
    requires
        has_node(nodes@, this_node),
    ensures
        exists|i: int|
            0 <= i < nodes@.len() && nodes@[i].id == this_node && (forall|j: int|
                0 <= j < i ==> nodes@[j].id != this_node) && r == nodes@[i],
{
    let mut i: usize = 0;
    while i < nodes.len()
        invariant
            i <= nodes@.len(),
            has_node(nodes@, this_node),
            forall|j: int| 0 <= j < i ==> nodes@[j].id != this_node,
        decreases nodes@.len() - i,
    {
        if nodes[i].id == this_node {
            return nodes[i].duplicate();
        }
        i = i + 1;
    }
    proof {
        let k = choose|k: int| 0 <= k < nodes@.len() && #[trigger] nodes@[k].id == this_node;
        assert(nodes@[k].id == this_node);
    }
    nodes[0].duplicate()
}

/// An enum whose variants each index one cache. Implementations list their
/// variants as `(index, name)` in strictly ascending order starting at `0`,
/// and map each value to its index in that list.
pub trait CacheVariants {
    /// The variants the type lists, as `(index, name)`.
    spec fn variant_list() -> Seq<(usize, &'static str)>;

    /// The value's variant index, matching the list of
    /// `hiqlite_cache_variants`: a position in that list.
    fn hiqlite_cache_index(&self) -> (r: usize)
        ensures
            r < Self::variant_list().len(),
            Self::variant_list()[r as int].0 == r,
    ;

    /// The variants as `(index, name)`, the index of each being its position.
    fn hiqlite_cache_variants() -> (r: &'static [(usize, &'static str)])
        ensures
            r@ == Self::variant_list(),
            forall|i: int| 0 <= i < r@.len() ==> (#[trigger] r@[i]).0 == i,
    ;
}

/// The cache index of a node that runs no cache. It holds an `Infallible`,
/// so no value of it exists.
#[derive(Debug)]
pub struct Empty(core::convert::Infallible);

impl Empty {
    /// No value of `Empty` exists: its field would be an `Infallible`.
    #[verifier::type_invariant]
    spec fn uninhabited(self) -> bool {
        false
    }
}

impl CacheVariants for Empty {
    open spec fn variant_list() -> Seq<(usize, &'static str)> {
        Seq::empty()
    }

    /// Never called: no value of `Empty` exists.
    fn hiqlite_cache_index(&self) -> (r: usize) {
        proof {
            use_type_invariant(self);
        }
        0
    }

    fn hiqlite_cache_variants() -> (r: &'static [(usize, &'static str)]) {
        &[]
    }
}

/// The consensus group a request is about.
#[derive(Debug, Clone, Copy, PartialEq, Eq, Structural)]
pub enum RaftType {
    Sqlite,
    Cache,
    Unknown,
}

/// Whether each consensus group of the node is stopped.
#[derive(Debug, Clone, Copy, PartialEq, Eq, Structural)]
pub struct RaftRunState {
    pub db_stopped: bool,
    pub cache_stopped: bool,
}

/// Whether the group `raft_type` is stopped; an unknown group always is.
pub open spec fn raft_stopped(state: RaftRunState, raft_type: RaftType) -> bool {
    match raft_type {
        RaftType::Sqlite => state.db_stopped,
        RaftType::Cache => state.cache_stopped,
        RaftType::Unknown => true,
    }
}

/// Whether the group `raft_type` is stopped; an unknown group always is.
pub fn is_raft_stopped(state: &RaftRunState, raft_type: &RaftType) -> (r: bool)
    ensures
        r == raft_stopped(*state, *raft_type),
{
    match raft_type {
        RaftType::Sqlite => state.db_stopped,
        RaftType::Cache => state.cache_stopped,
        RaftType::Unknown => true,
    }
}

/// Marks the group `raft_type` as running; the other group is unchanged.
pub fn set_raft_running(state: &mut RaftRunState, raft_type: &RaftType)
    requires
        *raft_type != RaftType::Unknown,
    ensures
        final(state).db_stopped == (if *raft_type == RaftType::Sqlite {
            false
        } else {
            old(state).db_stopped
        }),
        final(state).cache_stopped == (if *raft_type == RaftType::Cache {
            false
        } else {
            old(state).cache_stopped
        }),
{
    match raft_type {
        RaftType::Sqlite => {
            state.db_stopped = false;
        },
        RaftType::Cache => {
            state.cache_stopped = false;
        },
        RaftType::Unknown => {},
    }
}

/// After a group is marked running it is no longer stopped, and the other
/// group's state is what it was.
pub proof fn law_set_running_then_not_stopped(
    before: RaftRunState,
    after: RaftRunState,
    raft_type: RaftType,
    other: RaftType,
)
    requires
        raft_type != RaftType::Unknown,
        after.db_stopped == (if raft_type == RaftType::Sqlite {
            false
        } else {
            before.db_stopped
        }),
        after.cache_stopped == (if raft_type == RaftType::Cache {
            false
        } else {
            before.cache_stopped
        }),
        other != raft_type,
    ensures
        !raft_stopped(after, raft_type),
        raft_stopped(after, other) == raft_stopped(before, other),
{
}

} // verus!
