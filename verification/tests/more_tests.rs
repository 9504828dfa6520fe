use hiqlite::client::{is_local_leader, request_url, retry_after_error, LeaderAddr};
use hiqlite::error::{Error, ForwardToLeader};
use hiqlite::external::codec::require_exact_decode;
use hiqlite::external::error::ExternalError;
use hiqlite::network::access::{leader_check, validate_secret, LeaderCheck};
use hiqlite::node::Node;
use hiqlite::query::rows::{ColumnOwned, RowOwned};
use hiqlite::split_brain_check::{check_nodes_in_members, metrics_url, nodes_to_check};

fn node(id: u64) -> Node {
    Node {
        id,
        addr_raft: format!("localhost:{}", 8100 + id),
        addr_api: format!("localhost:{}", 8200 + id),
    }
}

#[test]
fn api_secret_is_checked() {
    match validate_secret("secret", None) {
        Err(Error::Token(m)) => assert_eq!(m, "API Secret missing"),
        other => panic!("unexpected {:?}", other),
    }
    match validate_secret("secret", Some(b"other")) {
        Err(Error::Token(m)) => assert_eq!(m, "Invalid API Secret"),
        other => panic!("unexpected {:?}", other),
    }
    assert!(validate_secret("secret", Some(b"secret")).is_ok());
    assert!(validate_secret("äb", Some("äb".as_bytes())).is_ok());
}

#[test]
fn leader_requests_are_forwarded() {
    let members = vec![node(1), node(2), node(3)];
    assert!(matches!(leader_check(None, 1, &members), LeaderCheck::ElectionInProgress));
    assert!(matches!(leader_check(Some(1), 1, &members), LeaderCheck::Leader));
    match leader_check(Some(3), 1, &members) {
        LeaderCheck::Forward(n) => assert_eq!(n, node(3)),
        other => panic!("unexpected {:?}", other),
    }
    assert!(matches!(leader_check(Some(9), 1, &members), LeaderCheck::LeaderUnknown(9)));
}

#[test]
fn error_status_codes() {
    assert_eq!(Error::BadRequest("x".into()).status_code(), 400);
    assert_eq!(Error::QueryReturnedNoRows("x".into()).status_code(), 404);
    assert_eq!(Error::Timeout("x".into()).status_code(), 408);
    assert_eq!(Error::Token("x".into()).status_code(), 401);
    assert_eq!(Error::Connect("x".into()).status_code(), 503);
    assert_eq!(Error::LeaderChange("x".into()).status_code(), 409);
    let forward = ForwardToLeader { leader_id: Some(2), leader_node: Some(node(2)) };
    let e = Error::ClientWriteError { message: "w".into(), forward: Some(forward.clone()) };
    assert_eq!(e.status_code(), 308);
    assert_eq!(Error::ClientWriteError { message: "w".into(), forward: None }.status_code(), 500);
    assert_eq!(Error::CheckIsLeaderError { message: "c".into(), forward: None }.status_code(), 409);
    let (id, n) = e.is_forward_to_leader().unwrap();
    assert_eq!(id, Some(2));
    assert_eq!(n, Some(node(2)));
    assert!(Error::new("plain".into()).is_forward_to_leader().is_none());
}

#[test]
fn client_follows_leader_changes() {
    let mut leader = LeaderAddr { id: 1, api_addr: "localhost:8201".into() };
    assert_eq!(leader.build_addr(true, "/execute"), "https://localhost:8201/execute");
    assert_eq!(request_url(false, "h:1", "/p"), "http://h:1/p");
    let to2 = Error::CheckIsLeaderError {
        message: "forward".into(),
        forward: Some(ForwardToLeader { leader_id: Some(2), leader_node: Some(node(2)) }),
    };
    assert!(leader.was_leader_update_error(&to2));
    assert_eq!(leader.id, 2);
    assert_eq!(leader.api_addr, "localhost:8202");
    assert!(!leader.was_leader_update_error(&to2));
    let partial = Error::ClientWriteError {
        message: "forward".into(),
        forward: Some(ForwardToLeader { leader_id: Some(3), leader_node: None }),
    };
    assert!(!leader.was_leader_update_error(&partial));
    assert_eq!(leader.id, 2);
    leader.update_leader(Some(3), None);
    assert_eq!(leader.id, 2);
    leader.update_leader(Some(3), Some(&node(3)));
    assert_eq!(leader.id, 3);
    assert_eq!(leader.api_addr, "localhost:8203");
}

#[test]
fn split_brain_targets_and_missing_members() {
    let nodes = vec![node(1), node(2), node(3)];
    let targets = nodes_to_check(&nodes, 2);
    assert_eq!(targets, vec![node(1), node(3)]);
    assert_eq!(metrics_url(false, "localhost:8201", "sqlite"), "http://localhost:8201/cluster/metrics/sqlite");
    assert_eq!(check_nodes_in_members(&nodes, &[1, 3]), vec![2]);
    assert!(check_nodes_in_members(&nodes, &[3, 2, 1]).is_empty());
}

#[test]
fn owned_rows_give_up_columns_by_name() {
    let mut row = RowOwned {
        columns: vec![
            ColumnOwned { name: "id".to_string(), value: 1i64 },
            ColumnOwned { name: "name".to_string(), value: 2i64 },
            ColumnOwned { name: "ts".to_string(), value: 3i64 },
        ],
    };
    assert_eq!(row.take_value("id").unwrap(), 1);
    assert_eq!(row.columns.len(), 2);
    assert_eq!(row.columns[0].name, "ts");
    match row.take_value("id") {
        Err(Error::QueryParams(m)) => assert_eq!(m, "column 'id' not found"),
        other => panic!("unexpected {:?}", other),
    }
    assert_eq!(row.take_value("name").unwrap(), 2);
}

#[test]
fn trailing_bytes_are_rejected() {
    assert!(require_exact_decode(4, 4, "receipt").is_ok());
    match require_exact_decode(3, 4, "test receipt") {
        Err(ExternalError::InvalidMetadata(m)) => assert_eq!(m, "test receipt contains trailing bytes"),
        other => panic!("unexpected {:?}", other),
    }
}

#[test]
fn requests_are_retried_twice() {
    assert_eq!(retry_after_error(0), Some(1));
    assert_eq!(retry_after_error(1), Some(2));
    assert_eq!(retry_after_error(2), None);
    assert_eq!(retry_after_error(7), None);
    assert!(is_local_leader(Some(3), 3));
    assert!(!is_local_leader(Some(2), 3));
    assert!(!is_local_leader(None, 3));
}
