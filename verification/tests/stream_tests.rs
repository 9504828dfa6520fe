use hiqlite::error::{Error, ForwardToLeader};
use hiqlite::in_flight::{ClientStreamBook, PendingAcks, RaftRequestBook};
use hiqlite::init::{
    become_step, initialized_after_wait, initialized_before_wait, leave_failed_error,
    remote_member_verdict, BecomeReply, BecomeStep, MembershipReply, Node1InitProbe, ProbeStep,
};
use hiqlite::network::frames::{
    check_cache_index, client_frame_action, server_frame_action, FrameAction, FrameKind,
};
use hiqlite::node::Node;

fn node(id: u64) -> Node {
    Node {
        id,
        addr_raft: format!("localhost:{}", 8100 + id),
        addr_api: format!("localhost:{}", 8200 + id),
    }
}

fn sorted(mut v: Vec<(usize, &'static str)>) -> Vec<(usize, &'static str)> {
    v.sort();
    v
}

#[test]
fn pending_acks_behave_like_a_map() {
    let mut acks = PendingAcks::new();
    assert!(acks.is_empty());
    assert_eq!(acks.insert(7, "a"), None);
    assert_eq!(acks.insert(9, "b"), None);
    assert!(acks.contains(7));
    assert_eq!(acks.insert(7, "c"), Some("a"));
    assert_eq!(acks.remove(7), Some("c"));
    assert_eq!(acks.remove(7), None);
    assert!(!acks.contains(7));
    assert_eq!(sorted(acks.take_all()), vec![(9, "b")]);
    assert!(acks.is_empty());
}

#[test]
fn client_stream_answers_each_response_once() {
    let mut book = ClientStreamBook::new();
    assert_eq!(book.request_sent(1, "one"), None);
    assert_eq!(book.request_sent(2, "two"), None);
    assert_eq!(book.try_forward_response(1, book.awaiting_timeout), Some("one"));
    assert_eq!(book.try_forward_response(1, book.awaiting_timeout), None);
    assert_eq!(book.try_forward_response(5, book.awaiting_timeout), None);
}

#[test]
fn client_stream_carries_requests_over_a_reconnect() {
    let mut book = ClientStreamBook::new();
    book.request_sent(1, "one");
    book.request_sent(2, "two");
    book.connection_closed();
    assert!(book.in_flight.is_empty());
    assert!(book.in_flight_buf.contains(1) && book.in_flight_buf.contains(2));
    book.connection_opened();
    // late answers from the old connection are still delivered
    assert_eq!(book.try_forward_response(2, true), Some("two"));
    // not while draining the reader, where carried-over requests are not used
    assert_eq!(book.try_forward_response(1, false), None);
    book.cleanup_buffer();
    assert!(!book.awaiting_timeout);
    assert!(book.in_flight_buf.is_empty());
    assert_eq!(book.try_forward_response(1, book.awaiting_timeout), None);
}

#[test]
fn client_stream_fails_in_flight_requests_on_leader_change() {
    let mut book = ClientStreamBook::new();
    book.request_sent(3, "three");
    book.request_sent(4, "four");
    book.connection_closed();
    book.request_sent(5, "five");
    let failed = sorted(book.leader_changed());
    assert_eq!(failed, vec![(5, "five")]);
    assert!(book.in_flight.is_empty());
    assert!(book.in_flight_buf.contains(3) && book.in_flight_buf.contains(4));
}

#[test]
fn raft_stream_hands_out_ascending_ids() {
    let mut book = RaftRequestBook::new();
    assert!(book.is_empty());
    assert_eq!(book.next_request_id(), 0);
    assert_eq!(book.register("vote"), 0);
    assert_eq!(book.register("append"), 1);
    assert_eq!(book.next_request_id(), 2);
    assert_eq!(book.take(1), Some("append"));
    assert_eq!(book.take(1), None);
    assert_eq!(sorted(book.take_all()), vec![(0, "vote")]);
    assert!(book.is_empty());
    assert_eq!(book.register("snapshot"), 2);
}

#[test]
fn node_1_probe_needs_a_quorum() {
    assert!(Node1InitProbe::new(0).is_none());
    assert!(Node1InitProbe::new(1).is_none());
    let mut probe = Node1InitProbe::new(5).unwrap();
    assert_eq!(probe.quorum, 2);
    assert_eq!(probe.skip_nodes, vec![1]);
    assert!(!probe.should_ask(1));
    assert!(probe.should_ask(2));
    assert_eq!(probe.after_reply(2, MembershipReply::Unreachable), ProbeStep::Continue);
    assert_eq!(probe.after_reply(3, MembershipReply::Refused), ProbeStep::InitHere);
    assert_eq!(probe.skip_nodes, vec![1, 3]);
    assert!(!probe.should_ask(3));
}

#[test]
fn node_1_probe_skips_init_on_existing_cluster() {
    let mut probe = Node1InitProbe::new(3).unwrap();
    assert_eq!(probe.after_reply(2, MembershipReply::Members(3)), ProbeStep::SkipInit);
    assert_eq!(probe.after_reply(2, MembershipReply::Members(0)), ProbeStep::InconsistentRemote);
    // with three nodes, node 1 alone is the quorum after the first answer
    assert_eq!(probe.after_reply(3, MembershipReply::Unreachable), ProbeStep::InitHere);
}

#[test]
fn join_answers_are_classified() {
    assert_eq!(become_step(2, &BecomeReply::Accepted), BecomeStep::Done);
    assert_eq!(become_step(2, &BecomeReply::Unreachable), BecomeStep::TryNext);
    let to_self = Error::ClientWriteError {
        message: "forward".into(),
        forward: Some(ForwardToLeader { leader_id: Some(2), leader_node: Some(node(2)) }),
    };
    assert_eq!(become_step(2, &BecomeReply::Refused(to_self)), BecomeStep::LeaderIsThisNode);
    let to_other = Error::CheckIsLeaderError {
        message: "forward".into(),
        forward: Some(ForwardToLeader { leader_id: Some(3), leader_node: Some(node(3)) }),
    };
    assert_eq!(become_step(2, &BecomeReply::Refused(to_other)), BecomeStep::TryNext);
    let no_node = Error::ClientWriteError {
        message: "forward".into(),
        forward: Some(ForwardToLeader { leader_id: Some(2), leader_node: None }),
    };
    assert_eq!(become_step(2, &BecomeReply::Refused(no_node)), BecomeStep::TryNext);
    assert_eq!(
        become_step(2, &BecomeReply::Refused(Error::Connect("x".into()))),
        BecomeStep::TryNext
    );
}

#[test]
fn membership_and_initialization_verdicts() {
    assert_eq!(remote_member_verdict(2, Some(&[1u64, 2, 3][..])), Some(true));
    assert_eq!(remote_member_verdict(4, Some(&[1u64, 2, 3][..])), Some(false));
    assert_eq!(remote_member_verdict(4, None), None);
    assert_eq!(initialized_before_wait(true, true), Some(true));
    assert_eq!(initialized_before_wait(true, false), None);
    assert_eq!(initialized_before_wait(false, true), None);
    assert!(initialized_after_wait(true, true));
    assert!(!initialized_after_wait(true, false));
    assert!(!initialized_after_wait(false, true));
    match leave_failed_error() {
        Error::Connect(m) => {
            assert_eq!(m, "Could not leave the cluster after trying all nodes once")
        }
        other => panic!("unexpected {:?}", other),
    }
}

#[test]
fn frames_are_dispatched_by_kind() {
    assert_eq!(server_frame_action(FrameKind::Binary), FrameAction::Decode);
    assert_eq!(server_frame_action(FrameKind::Close), FrameAction::Stop);
    assert_eq!(server_frame_action(FrameKind::Text), FrameAction::Stop);
    assert_eq!(server_frame_action(FrameKind::Ping), FrameAction::Stop);
    assert_eq!(client_frame_action(FrameKind::Binary), FrameAction::Decode);
    assert_eq!(client_frame_action(FrameKind::Close), FrameAction::Stop);
    assert_eq!(client_frame_action(FrameKind::Text), FrameAction::Ignore);
    assert_eq!(client_frame_action(FrameKind::Pong), FrameAction::Ignore);
    assert_eq!(client_frame_action(FrameKind::Continuation), FrameAction::Ignore);
}

#[test]
fn cache_index_is_bounds_checked() {
    assert!(check_cache_index(0, 3).is_ok());
    assert!(check_cache_index(2, 3).is_ok());
    match check_cache_index(3, 3) {
        Err(Error::Error(m)) => assert_eq!(m, "cache index 3 out of range (0..3)"),
        other => panic!("unexpected {:?}", other),
    }
    match check_cache_index(17, 0) {
        Err(Error::Error(m)) => assert_eq!(m, "cache index 17 out of range (0..0)"),
        other => panic!("unexpected {:?}", other),
    }
}
