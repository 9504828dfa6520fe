use hiqlite::node::{
    get_this_node, is_raft_stopped, set_raft_running, CacheVariants, Empty, Node, RaftRunState,
    RaftType,
};

fn node(id: u64) -> Node {
    Node {
        id,
        addr_raft: format!("localhost:{}", 8100 + id),
        addr_api: format!("localhost:{}", 8200 + id),
    }
}

#[test]
fn this_node_is_found_by_id() {
    let nodes = vec![node(1), node(2), node(3)];
    assert_eq!(get_this_node(2, &nodes), node(2));
    let twice = vec![node(1), Node { id: 1, addr_raft: "a".into(), addr_api: "b".into() }];
    assert_eq!(get_this_node(1, &twice).addr_api, "localhost:8201");
}

#[test]
fn node_display_text() {
    assert_eq!(
        node(3).to_string(),
        "Node { id: 3, rpc_addr: localhost:8103, api_addr: localhost:8203 }"
    );
    let d = Node::default();
    assert_eq!(d.id, 0);
    assert_eq!(d.to_string(), "Node { id: 0, rpc_addr: , api_addr:  }");
}

#[test]
fn node_equality_compares_all_fields() {
    assert_eq!(node(1), node(1));
    assert_ne!(node(1), node(2));
    let mut other = node(1);
    other.addr_api = "elsewhere:1".into();
    assert_ne!(node(1), other);
    assert_eq!(node(5).duplicate(), node(5));
}

#[test]
fn raft_run_state() {
    let mut s = RaftRunState { db_stopped: true, cache_stopped: true };
    assert!(is_raft_stopped(&s, &RaftType::Sqlite));
    assert!(is_raft_stopped(&s, &RaftType::Unknown));
    set_raft_running(&mut s, &RaftType::Sqlite);
    assert!(!is_raft_stopped(&s, &RaftType::Sqlite));
    assert!(is_raft_stopped(&s, &RaftType::Cache));
    set_raft_running(&mut s, &RaftType::Cache);
    assert!(!is_raft_stopped(&s, &RaftType::Cache));
    assert!(is_raft_stopped(&s, &RaftType::Unknown));
}

#[test]
fn empty_cache_index_has_no_variants() {
    assert!(Empty::hiqlite_cache_variants().is_empty());
}
