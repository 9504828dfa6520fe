use crate::external::digest::Sha256Digest;
use crate::external::error::ExternalError;
use crate::external::sequence::CommitSequence;
use crate::decimal::{format_i64, int_text};
use vstd::prelude::*;

verus! {

/// Identity and schema evidence for one caller-committed log entry.
///
/// The coordinate is the caller's exact native position (such as
/// term/leader/index); the state machine compares it only for equality.
#[derive(Debug, Clone)]
pub struct ExternalCommit<C> {
    /// Dense global state-machine order.
    pub sequence: CommitSequence,
    /// Exact caller-native coordinate.
    pub coordinate: C,
    /// SHA-256 of the caller's stable canonical command bytes.
    pub command_digest: Sha256Digest,
    /// Caller-owned version of the application schema after this entry.
    pub state_schema: u64,
    /// Caller-owned version of the serialized response receipt.
    pub receipt_schema: u64,
}

/// The mathematical value of a commit whose coordinate is held in its
/// encoded form.
pub struct CommitView {
    pub sequence: u64,
    pub coordinate: Seq<u8>,
    pub command_digest: Seq<u8>,
    pub state_schema: u64,
    pub receipt_schema: u64,
}

impl View for ExternalCommit<Vec<u8>> {
    type V = CommitView;

    open spec fn view(&self) -> CommitView {
        CommitView {
            sequence: self.sequence.0,
            coordinate: self.coordinate@,
            command_digest: self.command_digest@,
            state_schema: self.state_schema,
            receipt_schema: self.receipt_schema,
        }
    }
}

impl<C> ExternalCommit<C> {
    pub fn new(
        sequence: CommitSequence,
        coordinate: C,
        command_digest: Sha256Digest,
        state_schema: u64,
        receipt_schema: u64,
    ) -> (r: Self)
        ensures
            r.sequence == sequence,
            r.coordinate == coordinate,
            r.command_digest == command_digest,
            r.state_schema == state_schema,
            r.receipt_schema == receipt_schema,
    {
        ExternalCommit { sequence, coordinate, command_digest, state_schema, receipt_schema }
    }
}

/// Whether two byte vectors hold the same bytes.
pub fn bytes_equal(a: &[u8], b: &[u8]) -> (r: bool)
    ensures
        r == (a@ == b@),
{
    if a.len() != b.len() {
        return false;
    }
    let mut i: usize = 0;
    while i < a.len()
        invariant
            i <= a@.len(),
            a@.len() == b@.len(),
            forall|k: int| 0 <= k < i ==> a@[k] == b@[k],
        decreases a@.len() - i,
    {
        if a[i] != b[i] {
            return false;
        }
        i = i + 1;
    }
    assert(a@ =~= b@);
    true
}

impl ExternalCommit<Vec<u8>> {
    /// Whether both commits are the same entry: same sequence, coordinate,
    /// command digest and schemas.
    pub fn same_as(&self, other: &ExternalCommit<Vec<u8>>) -> (r: bool)
        ensures
            r == (self@ == other@),
    {
        let r = self.sequence.0 == other.sequence.0 && bytes_equal(
            &self.coordinate,
            &other.coordinate,
        ) && self.command_digest.same_as(&other.command_digest) && self.state_schema
            == other.state_schema && self.receipt_schema == other.receipt_schema;
        r
    }

    /// A copy of this commit.
    pub fn duplicate(&self) -> (r: ExternalCommit<Vec<u8>>)
        ensures
            r@ == self@,
    {
        ExternalCommit {
            sequence: self.sequence,
            coordinate: self.coordinate.clone(),
            command_digest: self.command_digest,
            state_schema: self.state_schema,
            receipt_schema: self.receipt_schema,
        }
    }
}

/// Whether a checkpoint applied a typed operation or explicitly advanced over
/// a committed entry that did not mutate this SQLite lane.
#[derive(Debug, Clone, Copy, PartialEq, Eq, Structural)]
pub enum ExternalEntryKind {
    Operation,
    Advance,
}

/// The persisted code of an entry kind.
pub open spec fn kind_code(kind: ExternalEntryKind) -> i64 {
    match kind {
        ExternalEntryKind::Operation => 1,
        ExternalEntryKind::Advance => 2,
    }
}

/// The message for an unknown persisted entry-kind code.
pub open spec fn unknown_kind_message(value: i64) -> Seq<char> {
    "unknown external entry kind "@ + int_text(value as int)
}

impl ExternalEntryKind {
    /// The persisted code: 1 for an operation, 2 for an advance.
    pub fn as_i64(self) -> (r: i64)
        ensures
            r == kind_code(self),
    {
        match self {
            ExternalEntryKind::Operation => 1,
            ExternalEntryKind::Advance => 2,
        }
    }

    /// Reads a persisted code; any code other than 1 and 2 is invalid metadata.
    pub fn from_i64(value: i64) -> (r: Result<ExternalEntryKind, ExternalError>)
        ensures
            value == 1 ==> r == Ok::<ExternalEntryKind, ExternalError>(ExternalEntryKind::Operation),
            value == 2 ==> r == Ok::<ExternalEntryKind, ExternalError>(ExternalEntryKind::Advance),
            value != 1 && value != 2 ==> (r matches Err(ExternalError::InvalidMetadata(m)) && m@
                == unknown_kind_message(value)),
    {
        match value {
            1 => Ok(ExternalEntryKind::Operation),
            2 => Ok(ExternalEntryKind::Advance),
            _ => {
                let mut m = String::from_str("unknown external entry kind ");
                let n = format_i64(value);
                m.append(n.as_str());
                proof {
                    reveal_strlit("unknown external entry kind ");
                }
                Err(ExternalError::InvalidMetadata(m))
            },
        }
    }
}

/// Durable evidence for the latest globally applied entry.
#[derive(Debug, Clone)]
pub struct ExternalApplied<C> {
    pub commit: ExternalCommit<C>,
    pub kind: ExternalEntryKind,
    pub receipt_digest: Sha256Digest,
}

/// The mathematical value of applied-entry evidence.
pub struct AppliedView {
    pub commit: CommitView,
    pub kind: ExternalEntryKind,
    pub receipt_digest: Seq<u8>,
}

impl View for ExternalApplied<Vec<u8>> {
    type V = AppliedView;

    open spec fn view(&self) -> AppliedView {
        AppliedView { commit: self.commit@, kind: self.kind, receipt_digest: self.receipt_digest@ }
    }
}

/// The value of an optional applied entry.
pub open spec fn applied_opt_view(a: Option<ExternalApplied<Vec<u8>>>) -> Option<AppliedView> {
    match a {
        Some(x) => Some(x@),
        None => None,
    }
}

impl<C> ExternalApplied<C> {
    /// Creates applied-entry evidence for reconstruction from a caller-owned
    /// outer snapshot manifest.
    pub fn new(commit: ExternalCommit<C>, kind: ExternalEntryKind, receipt_digest: Sha256Digest) -> (r: Self)
        ensures
            r.commit == commit,
            r.kind == kind,
            r.receipt_digest == receipt_digest,
    {
        ExternalApplied { commit, kind, receipt_digest }
    }
}

impl ExternalApplied<Vec<u8>> {
    /// Whether both records describe the same applied entry.
    pub fn same_as(&self, other: &ExternalApplied<Vec<u8>>) -> (r: bool)
        ensures
            r == (self@ == other@),
    {
        self.commit.same_as(&other.commit) && self.kind == other.kind
            && self.receipt_digest.same_as(&other.receipt_digest)
    }

    /// A copy of this record.
    pub fn duplicate(&self) -> (r: ExternalApplied<Vec<u8>>)
        ensures
            r@ == self@,
    {
        ExternalApplied {
            commit: self.commit.duplicate(),
            kind: self.kind,
            receipt_digest: self.receipt_digest,
        }
    }
}

/// Whether two optional applied records describe the same entry (or both are absent).
pub fn same_applied_opt(a: &Option<ExternalApplied<Vec<u8>>>, b: &Option<ExternalApplied<Vec<u8>>>) -> (r: bool)
    ensures
        r == (applied_opt_view(*a) == applied_opt_view(*b)),
{
    match (a, b) {
        (Some(x), Some(y)) => x.same_as(y),
        (None, None) => true,
        _ => false,
    }
}

/// A copy of an optional applied record.
pub fn duplicate_applied_opt(a: &Option<ExternalApplied<Vec<u8>>>) -> (r: Option<ExternalApplied<Vec<u8>>>)
    ensures
        applied_opt_view(r) == applied_opt_view(*a),
{
    match a {
        Some(x) => Some(x.duplicate()),
        None => None,
    }
}

/// Result of a new application or an exact retained retry.
#[derive(Debug, Clone, PartialEq, Eq)]
pub enum ApplyOutcome<T> {
    Applied(T),
    Recovered(T),
}

} // verus!
