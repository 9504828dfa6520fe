use hiqlite::external::codec::{decode_digest, decode_u64, encode_u64};
use hiqlite::external::commit::{ExternalApplied, ExternalCommit, ExternalEntryKind};
use hiqlite::external::digest::Sha256Digest;
use hiqlite::external::error::ExternalError;
use hiqlite::external::options::{ExternalDurability, ExternalSqliteOptions};
use hiqlite::external::sequence::CommitSequence;
use hiqlite::external::snapshot::reject_stale_snapshot;
use hiqlite::external::state::{
    classify_commit, receipt_floor_for, receipt_lookup, update_state_after_commit, CommitClass,
    StoredReceipt, StoredState,
};

const CODEC: &str = "hiqlite-test-receipt-v1";

fn commit(sequence: u64, command: &str) -> ExternalCommit<Vec<u8>> {
    ExternalCommit::new(
        CommitSequence(sequence),
        vec![7, 3, (sequence + 100) as u8],
        Sha256Digest::of(command.as_bytes()),
        1,
        1,
    )
}

fn fresh_state() -> StoredState<Vec<u8>> {
    StoredState {
        application_id: "workspace-test-v1".to_string(),
        initial_sequence: CommitSequence(1),
        initial_state_schema: 1,
        receipt_codec: CODEC.to_string(),
        receipt_retention: 2,
        max_receipt_bytes: 65536,
        last_applied: None,
        receipt_floor: None,
        snapshot_id: None,
    }
}

fn receipt(c: &ExternalCommit<Vec<u8>>, kind: ExternalEntryKind, codec: &str) -> StoredReceipt<Vec<u8>> {
    StoredReceipt {
        commit: c.duplicate(),
        kind,
        codec: codec.to_string(),
        receipt: b"receipt".to_vec(),
        receipt_digest: Sha256Digest::of(b"receipt"),
    }
}

#[test]
fn dense_frontier_decisions() {
    let mut state = fresh_state();
    assert!(matches!(
        classify_commit(&state, &commit(0, "before-initial"), ExternalEntryKind::Operation, CODEC, None),
        Err(ExternalError::SequenceBeforeInitial { initial: CommitSequence(1), received: CommitSequence(0) })
    ));
    assert!(matches!(
        classify_commit(&state, &commit(2, "early"), ExternalEntryKind::Operation, CODEC, None),
        Err(ExternalError::SequenceGap { expected: CommitSequence(1), received: CommitSequence(2) })
    ));
    let create = commit(1, "create-v1");
    assert!(matches!(
        classify_commit(&state, &create, ExternalEntryKind::Operation, CODEC, None),
        Ok(CommitClass::New)
    ));
    update_state_after_commit(&mut state, create, ExternalEntryKind::Operation, Sha256Digest::of(b"r1"));
    assert_eq!(state.receipt_floor, Some(CommitSequence(1)));

    let advance = commit(2, "global-membership-entry");
    update_state_after_commit(&mut state, advance, ExternalEntryKind::Advance, Sha256Digest::of(b"r2"));
    let insert = commit(3, "insert-1-v1");
    assert!(receipt_lookup(&state, &insert).is_none());
    assert!(matches!(
        classify_commit(&state, &insert, ExternalEntryKind::Operation, CODEC, None),
        Ok(CommitClass::New)
    ));
    update_state_after_commit(&mut state, insert.duplicate(), ExternalEntryKind::Operation, Sha256Digest::of(b"r3"));
    assert_eq!(state.receipt_floor, Some(CommitSequence(2)));
    assert_eq!(state.last_applied.as_ref().unwrap().commit.sequence, CommitSequence(3));

    // The exact retry is recovered from the retained receipt.
    assert_eq!(receipt_lookup(&state, &insert), Some(CommitSequence(3)));
    let stored = receipt(&insert, ExternalEntryKind::Operation, CODEC);
    assert!(matches!(
        classify_commit(&state, &insert, ExternalEntryKind::Operation, CODEC, Some(stored)),
        Ok(CommitClass::Retry(_))
    ));

    // The same sequence with another command digest conflicts.
    let mut conflicting = insert.duplicate();
    conflicting.command_digest = Sha256Digest::of(b"different-canonical-command");
    let stored = receipt(&insert, ExternalEntryKind::Operation, CODEC);
    assert!(matches!(
        classify_commit(&state, &conflicting, ExternalEntryKind::Operation, CODEC, Some(stored)),
        Err(ExternalError::CommitConflict(CommitSequence(3)))
    ));
    // An advance over an operation entry conflicts too.
    let stored = receipt(&insert, ExternalEntryKind::Operation, CODEC);
    assert!(matches!(
        classify_commit(&state, &insert, ExternalEntryKind::Advance, "hiqlite/advance-v1", Some(stored)),
        Err(ExternalError::CommitConflict(CommitSequence(3)))
    ));

    assert!(matches!(
        classify_commit(&state, &commit(5, "gap"), ExternalEntryKind::Operation, CODEC, None),
        Err(ExternalError::SequenceGap { expected: CommitSequence(4), received: CommitSequence(5) })
    ));

    let rejected = commit(4, "deterministic-rejection-v1");
    update_state_after_commit(&mut state, rejected, ExternalEntryKind::Operation, Sha256Digest::of(b"r4"));
    // Retention 2 keeps [3, 4]: the receipt at 2 is gone.
    assert_eq!(state.receipt_floor, Some(CommitSequence(3)));
    assert!(matches!(
        classify_commit(&state, &commit(2, "global-membership-entry"), ExternalEntryKind::Advance, "hiqlite/advance-v1", None),
        Err(ExternalError::ReceiptUnavailable(CommitSequence(2)))
    ));
}

#[test]
fn receipt_floor_keeps_the_last_retained_sequences() {
    assert_eq!(receipt_floor_for(CommitSequence(10), 3, CommitSequence(1)), CommitSequence(8));
    assert_eq!(receipt_floor_for(CommitSequence(2), 5, CommitSequence(1)), CommitSequence(1));
    assert_eq!(receipt_floor_for(CommitSequence(2), 0, CommitSequence(1)), CommitSequence(2));
    assert_eq!(receipt_floor_for(CommitSequence(u64::MAX), usize::MAX, CommitSequence(7)), CommitSequence(7));
}

#[test]
fn sequence_overflow_is_refused() {
    assert!(CommitSequence(u64::MAX).checked_next().is_err());
    assert_eq!(CommitSequence(41).checked_next().unwrap(), CommitSequence(42));
    assert_eq!(CommitSequence(5).get(), 5);
    let mut state = fresh_state();
    state.last_applied = Some(ExternalApplied::new(commit(u64::MAX, "last"), ExternalEntryKind::Operation, Sha256Digest::of(b"x")));
    let mut c = commit(1, "next");
    c.sequence = CommitSequence(u64::MAX);
    assert!(receipt_lookup(&state, &c).is_some());
    let mut beyond = commit(1, "x");
    beyond.sequence = CommitSequence(0);
    assert!(matches!(
        classify_commit(&state, &beyond, ExternalEntryKind::Operation, CODEC, None),
        Err(ExternalError::ReceiptUnavailable(CommitSequence(0)))
    ));
}

#[test]
fn big_endian_codec() {
    let b = encode_u64(0x0102_0304_0506_0708);
    assert_eq!(b, vec![1, 2, 3, 4, 5, 6, 7, 8]);
    assert_eq!(decode_u64(&b, "sequence").unwrap(), 0x0102_0304_0506_0708);
    match decode_u64(&[1, 2, 3], "sequence") {
        Err(ExternalError::InvalidMetadata(m)) => assert_eq!(m, "sequence must contain exactly 8 bytes"),
        other => panic!("unexpected {:?}", other),
    }
    let d = decode_digest(&[9u8; 32], "digest").unwrap();
    assert_eq!(d.as_bytes(), &[9u8; 32]);
    match decode_digest(&[9u8; 31], "digest") {
        Err(ExternalError::InvalidMetadata(m)) => assert_eq!(m, "digest must contain exactly 32 bytes"),
        other => panic!("unexpected {:?}", other),
    }
}

#[test]
fn sha256_of_known_input() {
    let d = Sha256Digest::of(b"abc");
    assert_eq!(
        d.as_bytes(),
        &[
            0xba, 0x78, 0x16, 0xbf, 0x8f, 0x01, 0xcf, 0xea, 0x41, 0x41, 0x40, 0xde, 0x5d, 0xae,
            0x22, 0x23, 0xb0, 0x03, 0x61, 0xa3, 0x96, 0x17, 0x7a, 0x9c, 0xb4, 0x10, 0xff, 0x61,
            0xf2, 0x00, 0x15, 0xad
        ]
    );
    assert!(d.same_as(&Sha256Digest::of(b"abc")));
    assert!(!d.same_as(&Sha256Digest::of(b"abd")));
}

#[test]
fn entry_kind_codes() {
    assert_eq!(ExternalEntryKind::Operation.as_i64(), 1);
    assert_eq!(ExternalEntryKind::Advance.as_i64(), 2);
    assert_eq!(ExternalEntryKind::from_i64(2).unwrap(), ExternalEntryKind::Advance);
    match ExternalEntryKind::from_i64(-7) {
        Err(ExternalError::InvalidMetadata(m)) => assert_eq!(m, "unknown external entry kind -7"),
        other => panic!("unexpected {:?}", other),
    }
}

#[test]
fn options_defaults_and_validation() {
    let o = ExternalSqliteOptions::new("/tmp/x".to_string(), "app".to_string());
    assert_eq!(o.filename, "external.sqlite");
    assert_eq!(o.durability, ExternalDurability::Full);
    assert!(o.validate().is_ok());
    let mut bad = o.clone();
    bad.application_id = String::new();
    assert!(matches!(bad.validate(), Err(ExternalError::InvalidOptions(m)) if m == "application_id must contain 1..=256 bytes"));
    let mut bad = o.clone();
    bad.filename = "../escape.sqlite".to_string();
    assert!(matches!(bad.validate(), Err(ExternalError::InvalidOptions(m)) if m == "filename must be one non-empty path component"));
    let mut ok = o.clone();
    ok.filename = "db.sqlite/.".to_string();
    assert!(ok.validate().is_ok());
    let mut bad = o.clone();
    bad.read_pool_size = 0;
    assert!(matches!(bad.validate(), Err(ExternalError::InvalidOptions(m)) if m == "read_pool_size must be in 1..=128"));
    let mut bad = o.clone();
    bad.receipt_retention = 1_000_001;
    assert!(matches!(bad.validate(), Err(ExternalError::InvalidOptions(m)) if m == "receipt_retention must be in 1..=1000000"));
    let mut bad = o;
    bad.max_receipt_bytes = 0;
    assert!(matches!(bad.validate(), Err(ExternalError::InvalidOptions(m)) if m == "max_receipt_bytes must be in 1..=16777216"));
}

#[test]
fn older_snapshots_are_stale() {
    let applied = |s: u64, cmd: &str| {
        Some(ExternalApplied::new(commit(s, cmd), ExternalEntryKind::Operation, Sha256Digest::of(b"r")))
    };
    assert!(reject_stale_snapshot(&None, &None).is_ok());
    assert!(reject_stale_snapshot(&None, &applied(3, "a")).is_ok());
    assert!(matches!(reject_stale_snapshot(&applied(3, "a"), &None), Err(ExternalError::StaleSnapshot)));
    assert!(matches!(reject_stale_snapshot(&applied(3, "a"), &applied(2, "a")), Err(ExternalError::StaleSnapshot)));
    assert!(reject_stale_snapshot(&applied(3, "a"), &applied(3, "a")).is_ok());
    assert!(matches!(
        reject_stale_snapshot(&applied(3, "a"), &applied(3, "b")),
        Err(ExternalError::CommitConflict(CommitSequence(3)))
    ));
    assert!(reject_stale_snapshot(&applied(3, "a"), &applied(4, "b")).is_ok());
}
