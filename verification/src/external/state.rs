//! The persisted checkpoint, the retained receipt window and the decisions
//! taken for each committed entry.

use crate::external::commit::{
    applied_opt_view, duplicate_applied_opt, AppliedView, CommitView, ExternalApplied,
    ExternalCommit, ExternalEntryKind,
};
use crate::external::digest::{spec_sha256, Sha256Digest};
use crate::external::error::ExternalError;
use crate::external::options::{chars_equal, MAX_RECEIPT_BYTES, MAX_RECEIPT_RETENTION};
use crate::external::sequence::CommitSequence;
use crate::text::str_chars;
use vstd::prelude::*;

verus! {

/// Receipt codec name recorded for entries that only advance the frontier.
pub open spec fn advance_codec() -> Seq<char> {
    "hiqlite/advance-v1"@
}

/// The receipt codec name recorded for advance entries.
pub fn advance_receipt_codec() -> (r: &'static str)
    ensures
        r@ == advance_codec(),
{
    "hiqlite/advance-v1"
}

/// The checkpoint and configuration persisted next to the application data.
#[derive(Debug)]
pub struct StoredState<C> {
    pub application_id: String,
    pub initial_sequence: CommitSequence,
    pub initial_state_schema: u64,
    pub receipt_codec: String,
    pub receipt_retention: usize,
    pub max_receipt_bytes: usize,
    pub last_applied: Option<ExternalApplied<C>>,
    pub receipt_floor: Option<CommitSequence>,
    pub snapshot_id: Option<String>,
}

/// The value of a persisted checkpoint.
pub struct StateView {
    pub application_id: Seq<char>,
    pub initial_sequence: u64,
    pub initial_state_schema: u64,
    pub receipt_codec: Seq<char>,
    pub receipt_retention: nat,
    pub max_receipt_bytes: nat,
    pub last_applied: Option<AppliedView>,
    pub receipt_floor: Option<u64>,
    pub snapshot_id: Option<Seq<char>>,
}

/// The value of an optional text.
pub open spec fn text_opt_view(s: Option<String>) -> Option<Seq<char>> {
    match s {
        Some(x) => Some(x@),
        None => None,
    }
}

/// The value of an optional sequence.
pub open spec fn seq_opt_view(s: Option<CommitSequence>) -> Option<u64> {
    match s {
        Some(x) => Some(x.0),
        None => None,
    }
}

impl View for StoredState<Vec<u8>> {
    type V = StateView;

    open spec fn view(&self) -> StateView {
        StateView {
            application_id: self.application_id@,
            initial_sequence: self.initial_sequence.0,
            initial_state_schema: self.initial_state_schema,
            receipt_codec: self.receipt_codec@,
            receipt_retention: self.receipt_retention as nat,
            max_receipt_bytes: self.max_receipt_bytes as nat,
            last_applied: applied_opt_view(self.last_applied),
            receipt_floor: seq_opt_view(self.receipt_floor),
            snapshot_id: text_opt_view(self.snapshot_id),
        }
    }
}

/// One retained response receipt.
#[derive(Debug)]
pub struct StoredReceipt<C> {
    pub commit: ExternalCommit<C>,
    pub kind: ExternalEntryKind,
    pub codec: String,
    pub receipt: Vec<u8>,
    pub receipt_digest: Sha256Digest,
}

/// The value of a retained receipt.
pub struct ReceiptView {
    pub commit: CommitView,
    pub kind: ExternalEntryKind,
    pub codec: Seq<char>,
    pub receipt: Seq<u8>,
    pub receipt_digest: Seq<u8>,
}

impl View for StoredReceipt<Vec<u8>> {
    type V = ReceiptView;

    open spec fn view(&self) -> ReceiptView {
        ReceiptView {
            commit: self.commit@,
            kind: self.kind,
            codec: self.codec@,
            receipt: self.receipt@,
            receipt_digest: self.receipt_digest@,
        }
    }
}

/// The value of an optional receipt.
pub open spec fn receipt_opt_view(r: Option<StoredReceipt<Vec<u8>>>) -> Option<ReceiptView> {
    match r {
        Some(x) => Some(x@),
        None => None,
    }
}

/// The values of a sequence of receipts.
pub open spec fn receipts_view(rs: Seq<StoredReceipt<Vec<u8>>>) -> Seq<ReceiptView> {
    rs.map_values(|r: StoredReceipt<Vec<u8>>| r@)
}

/// The lowest retained sequence once `sequence` is the checkpoint: the last
/// `retention` sequences, but never below the initial sequence.
pub open spec fn floor_for(sequence: u64, retention: nat, initial: u64) -> u64 {
    let back: int = if retention >= 1 {
        retention - 1
    } else {
        0
    };
    let low: int = if sequence >= back {
        sequence - back
    } else {
        0
    };
    if low >= initial {
        low as u64
    } else {
        initial
    }
}

/// The lowest retained sequence once `sequence` becomes the checkpoint.
pub fn receipt_floor_for(sequence: CommitSequence, retention: usize, initial: CommitSequence) -> (r:
    CommitSequence)
    ensures
        r.0 == floor_for(sequence.0, retention as nat, initial.0),
{
    let back: u64 = if retention >= 1 {
        (retention - 1) as u64
    } else {
        0
    };
    let low: u64 = if sequence.0 >= back {
        sequence.0 - back
    } else {
        0
    };
    if low >= initial.0 {
        CommitSequence(low)
    } else {
        initial
    }
}

/// How a committed entry relates to the checkpoint and the retained window.
pub enum Classification {
    /// The entry is the next one and must be applied.
    New,
    /// The entry is an exact retry of the retained receipt.
    Retry(ReceiptView),
    /// The entry skips or repeats a sequence that is not retained as expected.
    Gap { expected: u64, received: u64 },
    /// The entry comes before the configured initial sequence.
    BeforeInitial { initial: u64, received: u64 },
    /// The entry is already applied but its receipt is no longer retained.
    Unavailable(u64),
    /// The entry reuses an applied sequence with a different identity.
    Conflict(u64),
    /// The sequence counter would overflow.
    Overflow,
    /// Any other failure.
    Other,
}

/// Classifies a committed entry against the checkpoint. `stored` is the
/// retained receipt at the entry's sequence, where there is one; it is only
/// consulted for a sequence at or below the checkpoint.
pub open spec fn classify_outcome(
    s: StateView,
    c: CommitView,
    kind: ExternalEntryKind,
    codec: Seq<char>,
    stored: Option<ReceiptView>,
) -> Classification {
    match s.last_applied {
        None => {
            if c.sequence == s.initial_sequence {
                Classification::New
            } else if c.sequence > s.initial_sequence {
                Classification::Gap { expected: s.initial_sequence, received: c.sequence }
            } else {
                Classification::BeforeInitial { initial: s.initial_sequence, received: c.sequence }
            }
        },
        Some(current) => {
            if c.sequence <= current.commit.sequence {
                match stored {
                    None => Classification::Unavailable(c.sequence),
                    Some(r) => {
                        if r.commit != c || r.kind != kind || r.codec != codec {
                            Classification::Conflict(c.sequence)
                        } else {
                            Classification::Retry(r)
                        }
                    },
                }
            } else if current.commit.sequence == u64::MAX {
                Classification::Overflow
            } else if c.sequence == current.commit.sequence + 1 {
                Classification::New
            } else {
                Classification::Gap {
                    expected: (current.commit.sequence + 1) as u64,
                    received: c.sequence,
                }
            }
        },
    }
}

/// The decision of `classify_commit`.
pub enum CommitClass<C> {
    New,
    Retry(StoredReceipt<C>),
}

/// The classification a result of `classify_commit` expresses.
pub open spec fn classification_of(r: Result<CommitClass<Vec<u8>>, ExternalError>) -> Classification {
    match r {
        Ok(CommitClass::New) => Classification::New,
        Ok(CommitClass::Retry(x)) => Classification::Retry(x@),
        Err(ExternalError::SequenceGap { expected, received }) => Classification::Gap {
            expected: expected.0,
            received: received.0,
        },
        Err(ExternalError::SequenceBeforeInitial { initial, received }) => {
            Classification::BeforeInitial { initial: initial.0, received: received.0 }
        },
        Err(ExternalError::ReceiptUnavailable(s)) => Classification::Unavailable(s.0),
        Err(ExternalError::CommitConflict(s)) => Classification::Conflict(s.0),
        Err(ExternalError::SequenceOverflow) => Classification::Overflow,
        _ => Classification::Other,
    }
}

/// Whether classifying `commit` needs the retained receipt at its sequence.
pub open spec fn needs_receipt(s: StateView, c: CommitView) -> bool {
    s.last_applied matches Some(current) && c.sequence <= current.commit.sequence
}

/// The sequence whose retained receipt must be looked up before
/// `classify_commit` can decide, or `None` when no lookup is needed.
pub fn receipt_lookup(state: &StoredState<Vec<u8>>, commit: &ExternalCommit<Vec<u8>>) -> (r: Option<
    CommitSequence,
>)
    ensures
        r is Some <==> needs_receipt(state@, commit@),
        r matches Some(s) ==> s == commit.sequence,
{
    match &state.last_applied {
        Some(current) => {
            if commit.sequence.0 <= current.commit.sequence.0 {
                Some(commit.sequence)
            } else {
                None
            }
        },
        None => None,
    }
}

/// Decides whether `commit` is new, an exact retry of `stored`, or an error.
///
/// `stored` is the retained receipt at `commit.sequence` (if any); it is only
/// consulted for a sequence at or below the checkpoint.
pub fn classify_commit(
    state: &StoredState<Vec<u8>>,
    commit: &ExternalCommit<Vec<u8>>,
    kind: ExternalEntryKind,
    codec: &str,
    stored: Option<StoredReceipt<Vec<u8>>>,
) -> (r: Result<CommitClass<Vec<u8>>, ExternalError>)
    ensures
        classification_of(r) == classify_outcome(
            state@,
            commit@,
            kind,
            codec@,
            receipt_opt_view(stored),
        ),
{
    match &state.last_applied {
        None => {
            if commit.sequence.0 == state.initial_sequence.0 {
                Ok(CommitClass::New)
            } else if commit.sequence.0 > state.initial_sequence.0 {
                Err(
                    ExternalError::SequenceGap {
                        expected: state.initial_sequence,
                        received: commit.sequence,
                    },
                )
            } else {
                Err(
                    ExternalError::SequenceBeforeInitial {
                        initial: state.initial_sequence,
                        received: commit.sequence,
                    },
                )
            }
        },
        Some(current) => {
            if commit.sequence.0 <= current.commit.sequence.0 {
                match stored {
                    None => Err(ExternalError::ReceiptUnavailable(commit.sequence)),
                    Some(receipt) => {
                        let codec_chars = str_chars(codec);
                        let stored_codec = str_chars(receipt.codec.as_str());
                        if !receipt.commit.same_as(commit) || receipt.kind != kind || !chars_equal(
                            stored_codec.as_slice(),
                            codec_chars.as_slice(),
                        ) {
                            Err(ExternalError::CommitConflict(commit.sequence))
                        } else {
                            Ok(CommitClass::Retry(receipt))
                        }
                    },
                }
            } else {
                let expected = current.commit.sequence.checked_next()?;
                if commit.sequence.0 == expected.0 {
                    Ok(CommitClass::New)
                } else {
                    Err(ExternalError::SequenceGap { expected, received: commit.sequence })
                }
            }
        },
    }
}

/// The checkpoint after `c` was committed with `kind` and `digest`.
pub open spec fn state_after_commit(
    s: StateView,
    c: CommitView,
    kind: ExternalEntryKind,
    digest: Seq<u8>,
) -> StateView {
    StateView {
        last_applied: Some(AppliedView { commit: c, kind, receipt_digest: digest }),
        receipt_floor: Some(floor_for(c.sequence, s.receipt_retention, s.initial_sequence)),
        ..s
    }
}

/// Records a committed entry as the new checkpoint and moves the receipt
/// floor to keep the last `receipt_retention` sequences.
pub fn update_state_after_commit(
    state: &mut StoredState<Vec<u8>>,
    commit: ExternalCommit<Vec<u8>>,
    kind: ExternalEntryKind,
    receipt_digest: Sha256Digest,
)
    ensures
        final(state)@ == state_after_commit(old(state)@, commit@, kind, receipt_digest@),
{
    let floor = receipt_floor_for(commit.sequence, state.receipt_retention, state.initial_sequence);
    state.last_applied = Some(ExternalApplied { commit, kind, receipt_digest });
    state.receipt_floor = Some(floor);
}

} // verus!
