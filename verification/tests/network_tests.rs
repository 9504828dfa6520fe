use hiqlite::error::Error;
use hiqlite::network::challenge_response::{Challenge, ChallengeResponse, ResponseFinal, SALT_LEN};
use hiqlite::network::handshake::HandshakeSecret;
use hiqlite::network::management::{
    become_member_voters, leave_action, ClusterLeaveReq, LeaveAction, MembershipView,
};
use hiqlite::network::readiness::{
    check_health, ensure_ready_member, ready, GroupHealth, RaftReadiness, ServerState,
};

fn membership_with_voters_and_learners(voters: &[u64], members: &[u64]) -> MembershipView {
    MembershipView {
        voter_ids: voters.to_vec(),
        node_ids: members.to_vec(),
    }
}

#[test]
fn learner_only_readiness_accepts_committed_learner_member() {
    let membership = membership_with_voters_and_learners(&[1, 2], &[1, 2, 3]);

    assert!(ensure_ready_member(3, true, ServerState::Learner, &membership, "test").is_ok());
}

#[test]
fn learner_only_readiness_rejects_non_member_learner() {
    let membership = membership_with_voters_and_learners(&[1, 2], &[1, 2]);

    assert!(ensure_ready_member(3, true, ServerState::Learner, &membership, "test").is_err());
}

#[test]
fn learner_only_readiness_rejects_learners_when_disabled() {
    let membership = membership_with_voters_and_learners(&[1, 2], &[1, 2, 3]);

    assert!(ensure_ready_member(3, false, ServerState::Learner, &membership, "test").is_err());
}

#[test]
fn member_readiness_rejects_learner_state_without_learner_only() {
    let membership = membership_with_voters_and_learners(&[1, 2, 3], &[1, 2, 3]);

    assert!(ensure_ready_member(3, false, ServerState::Learner, &membership, "test").is_err());
}

#[test]
fn member_readiness_accepts_voter_in_non_learner_state() {
    let membership = membership_with_voters_and_learners(&[1, 2, 3], &[1, 2, 3]);

    assert!(ensure_ready_member(3, false, ServerState::Follower, &membership, "test").is_ok());
}

#[test]
fn member_readiness_rejects_shutdown_voter() {
    let membership = membership_with_voters_and_learners(&[1, 2, 3], &[1, 2, 3]);

    assert!(ensure_ready_member(3, false, ServerState::Shutdown, &membership, "test").is_err());
}

#[test]
fn readiness_error_names_the_raft() {
    let membership = membership_with_voters_and_learners(&[1], &[1]);
    match ensure_ready_member(2, false, ServerState::Leader, &membership, "sqlite") {
        Err(Error::Error(m)) => assert_eq!(m, "not yet a ready member of the sqlite raft"),
        other => panic!("unexpected {:?}", other),
    }
}

#[test]
fn test_challenge_response() {
    let secret = b"SuperMegaSecure1337";
    let secret_bad = b"SuperMegaSecure";

    let challenge = Challenge::new().unwrap();

    let challenge_response = ChallengeResponse::new(1, &challenge, secret.as_ref()).unwrap();

    assert!(challenge_response
        .verify(&challenge, secret_bad.as_ref())
        .is_err());
    let response = challenge_response
        .verify(&challenge, secret.as_ref())
        .unwrap();

    assert!(response
        .verify(&challenge_response, secret_bad.as_ref())
        .is_err());
    assert!(response
        .verify(&challenge_response, secret.as_ref())
        .is_ok());
}

#[test]
fn challenge_answer_is_sha256_of_challenge_and_secret() {
    // SHA-256("abc"), split as challenge "ab" and secret "c".
    let challenge = Challenge(b"ab".to_vec());
    let cr = ChallengeResponse::new(7, &challenge, b"c").unwrap();
    assert_eq!(cr.node_id, 7);
    assert_eq!(cr.challenge.len(), SALT_LEN);
    let expected: [u8; 32] = [
        0xba, 0x78, 0x16, 0xbf, 0x8f, 0x01, 0xcf, 0xea, 0x41, 0x41, 0x40, 0xde, 0x5d, 0xae, 0x22,
        0x23, 0xb0, 0x03, 0x61, 0xa3, 0x96, 0x17, 0x7a, 0x9c, 0xb4, 0x10, 0xff, 0x61, 0xf2, 0x00,
        0x15, 0xad,
    ];
    assert_eq!(cr.response, expected.to_vec());
    assert_ne!(cr.response, challenge.0);
}

#[test]
fn fresh_challenges_have_salt_length() {
    let a = Challenge::new().unwrap();
    assert_eq!(a.0.len(), 24);
}

#[test]
fn handshake_steps_complete_with_shared_secret() {
    let secret = b"0123456789abcdef";
    let challenge = Challenge::new().unwrap();
    let cr = HandshakeSecret::client_answer(Some(&challenge), secret, 4).unwrap();
    let (id, fin) = HandshakeSecret::server_check(Some(&cr), &challenge, secret).unwrap();
    assert_eq!(id, 4);
    assert!(HandshakeSecret::client_finish(Some(&fin), &cr, secret).is_ok());

    let forged = ResponseFinal(vec![0u8; 32]);
    match HandshakeSecret::client_finish(Some(&forged), &cr, secret) {
        Err(Error::BadRequest(m)) => assert_eq!(m, "Invalid ChallengeResponse"),
        other => panic!("unexpected {:?}", other),
    }
}

#[test]
fn handshake_refuses_non_binary_frames() {
    let challenge = Challenge(vec![1, 2, 3]);
    match HandshakeSecret::client_answer(None, b"x", 1) {
        Err(Error::BadRequest(m)) => assert_eq!(m, "Invalid Challenge from Server"),
        other => panic!("unexpected {:?}", other),
    }
    match HandshakeSecret::server_check(None, &challenge, b"x") {
        Err(Error::BadRequest(m)) => assert_eq!(m, "Invalid ChallengeResponse from Client"),
        other => panic!("unexpected {:?}", other),
    }
    let cr = ChallengeResponse { node_id: 1, challenge: vec![1], response: vec![2] };
    match HandshakeSecret::client_finish(None, &cr, b"x") {
        Err(Error::BadRequest(m)) => assert_eq!(m, "Invalid ResponseFinal from Server"),
        other => panic!("unexpected {:?}", other),
    }
    match HandshakeSecret::server_check(Some(&cr), &challenge, b"x") {
        Err(Error::BadRequest(m)) => assert_eq!(m, "Invalid ChallengeResponse"),
        other => panic!("unexpected {:?}", other),
    }
}

#[test]
fn leaving_the_cluster() {
    let m = membership_with_voters_and_learners(&[1, 2, 3], &[1, 2, 3, 4]);
    let req = |node_id, stay_as_learner| ClusterLeaveReq { node_id, stay_as_learner };
    assert_eq!(leave_action(&m, &req(2, true)), LeaveAction::RemoveVoter { stay_as_learner: true });
    assert_eq!(leave_action(&m, &req(2, false)), LeaveAction::RemoveVoter { stay_as_learner: false });
    assert_eq!(leave_action(&m, &req(4, false)), LeaveAction::RemoveLearner);
    assert_eq!(leave_action(&m, &req(4, true)), LeaveAction::Nothing);
    assert_eq!(leave_action(&m, &req(9, false)), LeaveAction::Nothing);
}

#[test]
fn becoming_a_member() {
    let m = membership_with_voters_and_learners(&[1, 2], &[1, 2, 3]);
    assert!(become_member_voters(&m, 2).is_none());
    let mut v = become_member_voters(&m, 3).unwrap();
    v.sort();
    assert_eq!(v, vec![1, 2, 3]);
}

fn running_group(state: ServerState, voters: &[u64], members: &[u64]) -> RaftReadiness {
    RaftReadiness {
        startup_finished: true,
        initialized: true,
        stopped: false,
        state,
        membership: membership_with_voters_and_learners(voters, members),
        has_leader: true,
    }
}

fn error_text(r: Result<(), Error>) -> String {
    match r {
        Err(Error::Error(m)) => m,
        other => panic!("unexpected {:?}", other),
    }
}

#[test]
fn node_readiness_checks_both_groups_in_order() {
    let db = running_group(ServerState::Follower, &[1, 2, 3], &[1, 2, 3]);
    let cache = running_group(ServerState::Leader, &[1, 2, 3], &[1, 2, 3]);
    assert!(ready(false, 2, false, 60, Some(&db), Some(&cache)).is_ok());
    assert_eq!(
        error_text(ready(true, 2, false, 60, Some(&db), Some(&cache))),
        "Node is shutting down"
    );

    let mut starting = db.clone();
    starting.startup_finished = false;
    assert_eq!(
        error_text(ready(false, 2, false, 60, Some(&starting), Some(&cache))),
        "Node is still starting up (sqlite)"
    );
    assert_eq!(
        error_text(ready(false, 2, false, 60, Some(&db), Some(&starting))),
        "Node is still starting up (cache)"
    );

    let mut stopped = db.clone();
    stopped.stopped = true;
    assert_eq!(
        error_text(ready(false, 2, false, 60, Some(&stopped), None)),
        "sqlite raft is not running"
    );
    assert_eq!(
        error_text(ready(false, 4, false, 60, Some(&db), None)),
        "not yet a ready member of the sqlite raft"
    );

    let mut voting = cache.clone();
    voting.has_leader = false;
    assert_eq!(
        error_text(ready(false, 2, false, 60, None, Some(&voting))),
        "cache raft leader vote in progress - secs_since_start: {secs_since_start}"
    );
    let mut voting_db = db.clone();
    voting_db.has_leader = false;
    assert_eq!(
        error_text(ready(false, 2, false, 60, Some(&voting_db), None)),
        "sqlite raft leader vote in progress"
    );
    // node 1 waits for a leader only during its first ten seconds
    assert!(ready(false, 1, false, 60, Some(&voting_db), None).is_ok());
    assert!(ready(false, 1, false, 5, Some(&voting_db), None).is_err());
}

#[test]
fn pristine_node_1_is_ready_to_found_the_cluster() {
    let mut pristine = running_group(ServerState::Learner, &[], &[]);
    pristine.initialized = false;
    pristine.stopped = true;
    pristine.has_leader = false;
    assert!(ready(false, 1, false, 11, Some(&pristine), Some(&pristine)).is_ok());
    assert_eq!(
        error_text(ready(false, 1, false, 10, Some(&pristine), None)),
        "sqlite raft is not running"
    );
    assert!(ready(false, 2, false, 11, Some(&pristine), None).is_err());
}

#[test]
fn health_reports_the_first_unhealthy_group() {
    let healthy = GroupHealth { running_error: None, has_leader: true };
    let voting = GroupHealth { running_error: None, has_leader: false };
    let stopped = GroupHealth {
        running_error: Some(Error::RaftErrorFatal("stopped".into())),
        has_leader: true,
    };
    assert!(check_health(false, Some(healthy.clone()), Some(healthy.clone())).is_ok());
    assert!(check_health(true, Some(voting.clone()), Some(stopped.clone())).is_ok());
    match check_health(false, Some(voting.clone()), Some(stopped.clone())) {
        Err(Error::LeaderChange(m)) => {
            assert_eq!(m, "The leader voting process has not finished yet for Raft DB")
        }
        other => panic!("unexpected {:?}", other),
    }
    match check_health(false, Some(healthy.clone()), Some(voting.clone())) {
        Err(Error::LeaderChange(m)) => {
            assert_eq!(m, "The leader voting process has not finished yet Raft Cache")
        }
        other => panic!("unexpected {:?}", other),
    }
    match check_health(false, None, Some(stopped)) {
        Err(Error::RaftErrorFatal(m)) => assert_eq!(m, "stopped"),
        other => panic!("unexpected {:?}", other),
    }
    assert!(check_health(false, None, None).is_ok());
}
