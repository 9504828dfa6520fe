//! Evidence bound to a completed SQLite snapshot, and the checks that decide
//! whether a staged snapshot may be validated or installed.

use crate::external::commit::{
    applied_opt_view, duplicate_applied_opt, same_applied_opt, AppliedView, ExternalApplied,
};
use crate::external::digest::Sha256Digest;
use crate::external::error::ExternalError;
use crate::external::metadata::EXTERNAL_FORMAT_VERSION;
use crate::external::sequence::CommitSequence;
use crate::external::state::{seq_opt_view, StateView, StoredState};
use crate::text::{join_strs, join_with, strs_view, text_equal};
use vstd::prelude::*;

verus! {

/// The SQLite artifact format produced when building a snapshot.
pub const EXTERNAL_SQLITE_SNAPSHOT_FORMAT: &'static str = "sqlite3-online-backup/page-image-v1";

/// The snapshot artifact format, as text.
pub open spec fn snapshot_format_text() -> Seq<char> {
    "sqlite3-online-backup/page-image-v1"@
}

/// Portable evidence bound to a completed SQLite snapshot file.
///
/// It contains no consensus membership; a caller embeds it in its own outer
/// snapshot manifest and verifies it again on install.
#[derive(Debug, Clone)]
pub struct ExternalSnapshotEvidence<C> {
    pub format_version: u16,
    pub snapshot_format: String,
    pub snapshot_id: String,
    pub application_id: String,
    pub initial_sequence: CommitSequence,
    pub initial_state_schema: u64,
    pub receipt_codec: String,
    pub checkpoint: Option<ExternalApplied<C>>,
    pub receipt_floor: Option<CommitSequence>,
    pub receipt_retention: u64,
    pub max_receipt_bytes: u64,
    pub sqlite_page_size: u32,
    pub sqlite_bytes: u64,
    pub sqlite_sha256: Sha256Digest,
}

/// The value of snapshot evidence.
pub struct EvidenceView {
    pub format_version: u16,
    pub snapshot_format: Seq<char>,
    pub snapshot_id: Seq<char>,
    pub application_id: Seq<char>,
    pub initial_sequence: u64,
    pub initial_state_schema: u64,
    pub receipt_codec: Seq<char>,
    pub checkpoint: Option<AppliedView>,
    pub receipt_floor: Option<u64>,
    pub receipt_retention: u64,
    pub max_receipt_bytes: u64,
    pub sqlite_page_size: u32,
    pub sqlite_bytes: u64,
    pub sqlite_sha256: Seq<u8>,
}

impl View for ExternalSnapshotEvidence<Vec<u8>> {
    type V = EvidenceView;

    open spec fn view(&self) -> EvidenceView {
        EvidenceView {
            format_version: self.format_version,
            snapshot_format: self.snapshot_format@,
            snapshot_id: self.snapshot_id@,
            application_id: self.application_id@,
            initial_sequence: self.initial_sequence.0,
            initial_state_schema: self.initial_state_schema,
            receipt_codec: self.receipt_codec@,
            checkpoint: applied_opt_view(self.checkpoint),
            receipt_floor: seq_opt_view(self.receipt_floor),
            receipt_retention: self.receipt_retention,
            max_receipt_bytes: self.max_receipt_bytes,
            sqlite_page_size: self.sqlite_page_size,
            sqlite_bytes: self.sqlite_bytes,
            sqlite_sha256: self.sqlite_sha256@,
        }
    }
}

impl<C> ExternalSnapshotEvidence<C> {
    /// Reconstructs engine evidence from a caller-owned, versioned outer
    /// snapshot manifest. Validation rejects incompatible values.
    #[allow(clippy::too_many_arguments)]
    pub fn from_manifest(
        format_version: u16,
        snapshot_format: String,
        snapshot_id: String,
        application_id: String,
        initial_sequence: CommitSequence,
        initial_state_schema: u64,
        receipt_codec: String,
        checkpoint: Option<ExternalApplied<C>>,
        receipt_floor: Option<CommitSequence>,
        receipt_retention: u64,
        max_receipt_bytes: u64,
        sqlite_page_size: u32,
        sqlite_bytes: u64,
        sqlite_sha256: Sha256Digest,
    ) -> (r: Self)
        ensures
            r.format_version == format_version,
            r.snapshot_format == snapshot_format,
            r.snapshot_id == snapshot_id,
            r.application_id == application_id,
            r.initial_sequence == initial_sequence,
            r.initial_state_schema == initial_state_schema,
            r.receipt_codec == receipt_codec,
            r.checkpoint == checkpoint,
            r.receipt_floor == receipt_floor,
            r.receipt_retention == receipt_retention,
            r.max_receipt_bytes == max_receipt_bytes,
            r.sqlite_page_size == sqlite_page_size,
            r.sqlite_bytes == sqlite_bytes,
            r.sqlite_sha256 == sqlite_sha256,
    {
        ExternalSnapshotEvidence {
            format_version,
            snapshot_format,
            snapshot_id,
            application_id,
            initial_sequence,
            initial_state_schema,
            receipt_codec,
            checkpoint,
            receipt_floor,
            receipt_retention,
            max_receipt_bytes,
            sqlite_page_size,
            sqlite_bytes,
            sqlite_sha256,
        }
    }
}

/// A completed, caller-staged snapshot and its exact evidence.
#[derive(Debug, Clone)]
pub struct ExternalSnapshot<C> {
    pub evidence: ExternalSnapshotEvidence<C>,
    /// Path of the snapshot file.
    pub path: String,
}

impl<C> ExternalSnapshot<C> {
    pub fn new(evidence: ExternalSnapshotEvidence<C>, path: String) -> (r: Self)
        ensures
            r.evidence == evidence,
            r.path == path,
    {
        ExternalSnapshot { evidence, path }
    }
}

/// The evidence that a snapshot of checkpoint `s` carries.
pub open spec fn evidence_of(
    s: StateView,
    snapshot_id: Seq<char>,
    page_size: u32,
    bytes: u64,
    sha: Seq<u8>,
) -> EvidenceView {
    EvidenceView {
        format_version: 1,
        snapshot_format: snapshot_format_text(),
        snapshot_id,
        application_id: s.application_id,
        initial_sequence: s.initial_sequence,
        initial_state_schema: s.initial_state_schema,
        receipt_codec: s.receipt_codec,
        checkpoint: s.last_applied,
        receipt_floor: s.receipt_floor,
        receipt_retention: s.receipt_retention as u64,
        max_receipt_bytes: s.max_receipt_bytes as u64,
        sqlite_page_size: page_size,
        sqlite_bytes: bytes,
        sqlite_sha256: sha,
    }
}

impl StoredState<Vec<u8>> {
    /// Builds the evidence of a snapshot taken at this checkpoint.
    pub fn snapshot_evidence(
        &self,
        snapshot_id: String,
        sqlite_page_size: u32,
        sqlite_bytes: u64,
        sqlite_sha256: Sha256Digest,
    ) -> (r: ExternalSnapshotEvidence<Vec<u8>>)
        ensures
            r@ == evidence_of(self@, snapshot_id@, sqlite_page_size, sqlite_bytes, sqlite_sha256@),
    {
        ExternalSnapshotEvidence {
            format_version: EXTERNAL_FORMAT_VERSION,
            snapshot_format: String::from_str(EXTERNAL_SQLITE_SNAPSHOT_FORMAT),
            snapshot_id,
            application_id: self.application_id.clone(),
            initial_sequence: self.initial_sequence,
            initial_state_schema: self.initial_state_schema,
            receipt_codec: self.receipt_codec.clone(),
            checkpoint: duplicate_applied_opt(&self.last_applied),
            receipt_floor: self.receipt_floor,
            receipt_retention: self.receipt_retention as u64,
            max_receipt_bytes: self.max_receipt_bytes as u64,
            sqlite_page_size,
            sqlite_bytes,
            sqlite_sha256,
        }
    }
}

/// Whether two floors are the same (or both absent).
fn same_floor(a: Option<CommitSequence>, b: Option<CommitSequence>) -> (r: bool)
    ensures
        r == (seq_opt_view(a) == seq_opt_view(b)),
{
    match (a, b) {
        (Some(x), Some(y)) => x.0 == y.0,
        (None, None) => true,
        _ => false,
    }
}

impl ExternalSnapshotEvidence<Vec<u8>> {
    /// Whether both evidence values agree in every field.
    pub fn same_as(&self, other: &ExternalSnapshotEvidence<Vec<u8>>) -> (r: bool)
        ensures
            r == (self@ == other@),
    {
        self.format_version == other.format_version && text_equal(
            self.snapshot_format.as_str(),
            other.snapshot_format.as_str(),
        ) && text_equal(self.snapshot_id.as_str(), other.snapshot_id.as_str()) && text_equal(
            self.application_id.as_str(),
            other.application_id.as_str(),
        ) && self.initial_sequence.0 == other.initial_sequence.0 && self.initial_state_schema
            == other.initial_state_schema && text_equal(
            self.receipt_codec.as_str(),
            other.receipt_codec.as_str(),
        ) && same_applied_opt(&self.checkpoint, &other.checkpoint) && same_floor(
            self.receipt_floor,
            other.receipt_floor,
        ) && self.receipt_retention == other.receipt_retention && self.max_receipt_bytes
            == other.max_receipt_bytes && self.sqlite_page_size == other.sqlite_page_size
            && self.sqlite_bytes == other.sqlite_bytes && self.sqlite_sha256.same_as(
            &other.sqlite_sha256,
        )
    }
}

/// The format problem of evidence, if any: an unknown format version, or an
/// unknown artifact format.
pub fn check_snapshot_format(evidence: &ExternalSnapshotEvidence<Vec<u8>>) -> (r: Result<(), ExternalError>)
    ensures
        evidence.format_version != 1 ==> r == Err::<(), ExternalError>(ExternalError::UnsupportedFormat(evidence.format_version)),
        evidence.format_version == 1 && evidence.snapshot_format@ != snapshot_format_text() ==> (r
            matches Err(ExternalError::SnapshotMismatch(m)) && m@
            == "unsupported SQLite snapshot format"@),
        r is Ok <==> (evidence.format_version == 1 && evidence.snapshot_format@ == snapshot_format_text()),
{
    if evidence.format_version != EXTERNAL_FORMAT_VERSION {
        return Err(ExternalError::UnsupportedFormat(evidence.format_version));
    }
    if !text_equal(evidence.snapshot_format.as_str(), EXTERNAL_SQLITE_SNAPSHOT_FORMAT) {
        return Err(ExternalError::SnapshotMismatch(String::from_str("unsupported SQLite snapshot format")));
    }
    Ok(())
}

/// The names of the settings in which the evidence differs from the live
/// checkpoint, in the order they are checked.
pub open spec fn snapshot_mismatches(live: StateView, e: EvidenceView) -> Seq<Seq<char>> {
    (if e.application_id != live.application_id { seq!["application_id"@] } else { seq![] })
    + (if e.initial_sequence != live.initial_sequence { seq!["initial_sequence"@] } else { seq![] })
    + (if e.initial_state_schema != live.initial_state_schema { seq!["initial_state_schema"@] } else { seq![] })
    + (if e.receipt_codec != live.receipt_codec { seq!["receipt_codec"@] } else { seq![] })
    + (if e.receipt_retention != live.receipt_retention { seq!["receipt_retention"@] } else { seq![] })
    + (if e.max_receipt_bytes != live.max_receipt_bytes { seq!["max_receipt_bytes"@] } else { seq![] })
}

fn note_mismatch<'a>(names: &mut Vec<&'a str>, differs: bool, name: &'a str)
    ensures
        strs_view(final(names)@) == strs_view(old(names)@) + (if differs {
            seq![name@]
        } else {
            Seq::<Seq<char>>::empty()
        }),
{
    if differs {
        names.push(name);
        assert(strs_view(names@) =~= strs_view(old(names)@) + seq![name@]);
    } else {
        assert(strs_view(names@) =~= strs_view(old(names)@) + Seq::<Seq<char>>::empty());
    }
}

/// Checks that a snapshot can be restored into the live engine: known
/// formats, and the same application identity, initial sequence and schema,
/// receipt codec and receipt limits.
pub fn validate_snapshot_compatibility(
    live: &StoredState<Vec<u8>>,
    evidence: &ExternalSnapshotEvidence<Vec<u8>>,
) -> (r: Result<(), ExternalError>)
    ensures
        evidence.format_version != 1 ==> r == Err::<(), ExternalError>(ExternalError::UnsupportedFormat(evidence.format_version)),
        evidence.format_version == 1 && evidence.snapshot_format@ != snapshot_format_text() ==> (r
            matches Err(ExternalError::SnapshotMismatch(m)) && m@
            == "unsupported SQLite snapshot format"@),
        r is Ok <==> (evidence.format_version == 1 && evidence.snapshot_format@ == snapshot_format_text()
            && snapshot_mismatches(live@, evidence@).len() == 0),
        evidence.format_version == 1 && evidence.snapshot_format@ == snapshot_format_text()
            && snapshot_mismatches(live@, evidence@).len() > 0 ==> (r matches Err(
            ExternalError::SnapshotMismatch(m),
        ) && m@ == "incompatible "@ + join_with(snapshot_mismatches(live@, evidence@), ", "@)),
{
    check_snapshot_format(evidence)?;
    let mut names: Vec<&str> = Vec::new();
    proof {
        reveal_strlit("application_id");
        reveal_strlit("initial_sequence");
        reveal_strlit("initial_state_schema");
        reveal_strlit("receipt_codec");
        reveal_strlit("receipt_retention");
        reveal_strlit("max_receipt_bytes");
    }
    note_mismatch(&mut names, !text_equal(evidence.application_id.as_str(), live.application_id.as_str()), "application_id");
    note_mismatch(&mut names, evidence.initial_sequence.0 != live.initial_sequence.0, "initial_sequence");
    note_mismatch(&mut names, evidence.initial_state_schema != live.initial_state_schema, "initial_state_schema");
    note_mismatch(&mut names, !text_equal(evidence.receipt_codec.as_str(), live.receipt_codec.as_str()), "receipt_codec");
    note_mismatch(&mut names, evidence.receipt_retention != live.receipt_retention as u64, "receipt_retention");
    note_mismatch(&mut names, evidence.max_receipt_bytes != live.max_receipt_bytes as u64, "max_receipt_bytes");
    assert(strs_view(names@) =~= snapshot_mismatches(live@, evidence@));
    if names.len() == 0 {
        Ok(())
    } else {
        let mut m = String::from_str("incompatible ");
        let joined = join_strs(&names, ", ");
        m.append(joined.as_str());
        Err(ExternalError::SnapshotMismatch(m))
    }
}

/// Whether installing a snapshot at checkpoint `incoming` over the live
/// checkpoint `live` is refused, and how.
pub enum StaleVerdict {
    Accept,
    Stale,
    Conflict(u64),
}

/// The verdict on a snapshot checkpoint: a snapshot without checkpoint over a
/// live checkpoint, or one older than it, is stale; one at the same sequence
/// must be the same entry; anything else is accepted.
pub open spec fn stale_verdict(live: Option<AppliedView>, incoming: Option<AppliedView>) -> StaleVerdict {
    match (live, incoming) {
        (Some(_), None) => StaleVerdict::Stale,
        (Some(l), Some(i)) => if i.commit.sequence < l.commit.sequence {
            StaleVerdict::Stale
        } else if i.commit.sequence == l.commit.sequence && i != l {
            StaleVerdict::Conflict(i.commit.sequence)
        } else {
            StaleVerdict::Accept
        },
        _ => StaleVerdict::Accept,
    }
}

/// Rejects a snapshot whose checkpoint is older than the live checkpoint, or
/// that holds another entry at the live checkpoint's sequence.
pub fn reject_stale_snapshot(
    live: &Option<ExternalApplied<Vec<u8>>>,
    incoming: &Option<ExternalApplied<Vec<u8>>>,
) -> (r: Result<(), ExternalError>)
    ensures
        stale_verdict(applied_opt_view(*live), applied_opt_view(*incoming)) == StaleVerdict::Accept
            <==> r is Ok,
        stale_verdict(applied_opt_view(*live), applied_opt_view(*incoming)) == StaleVerdict::Stale
            ==> r matches Err(ExternalError::StaleSnapshot),
        stale_verdict(applied_opt_view(*live), applied_opt_view(*incoming)) matches StaleVerdict::Conflict(s)
            ==> (r matches Err(ExternalError::CommitConflict(x)) && x.0 == s),
{
    match (live, incoming) {
        (Some(_), None) => Err(ExternalError::StaleSnapshot),
        (Some(l), Some(i)) => {
            if i.commit.sequence.0 < l.commit.sequence.0 {
                Err(ExternalError::StaleSnapshot)
            } else if i.commit.sequence.0 == l.commit.sequence.0 && !i.same_as(l) {
                Err(ExternalError::CommitConflict(i.commit.sequence))
            } else {
                Ok(())
            }
        },
        _ => Ok(()),
    }
}

/// Checks the snapshot file as found on disk: it must be a regular file of the
/// recorded size and SHA-256.
pub fn check_snapshot_file(
    evidence: &ExternalSnapshotEvidence<Vec<u8>>,
    is_regular_file: bool,
    file_len: u64,
    file_sha256: &Sha256Digest,
) -> (r: Result<(), ExternalError>)
    ensures
        r is Ok <==> (is_regular_file && file_len == evidence.sqlite_bytes && file_sha256@
            == evidence.sqlite_sha256@),
        !is_regular_file ==> (r matches Err(ExternalError::SnapshotMismatch(m)) && m@
            == "snapshot path is not a regular file"@),
        is_regular_file && file_len != evidence.sqlite_bytes ==> (r matches Err(
            ExternalError::SnapshotMismatch(m),
        ) && m@ == "file size differs from evidence"@),
        is_regular_file && file_len == evidence.sqlite_bytes && file_sha256@
            != evidence.sqlite_sha256@ ==> (r matches Err(ExternalError::SnapshotMismatch(m)) && m@
            == "file SHA-256 differs from evidence"@),
{
    if !is_regular_file {
        return Err(ExternalError::SnapshotMismatch(String::from_str("snapshot path is not a regular file")));
    }
    if file_len != evidence.sqlite_bytes {
        return Err(ExternalError::SnapshotMismatch(String::from_str("file size differs from evidence")));
    }
    if !file_sha256.same_as(&evidence.sqlite_sha256) {
        return Err(ExternalError::SnapshotMismatch(String::from_str("file SHA-256 differs from evidence")));
    }
    Ok(())
}

/// Checks the SQLite image: `quick_check` must report `ok` and the page size
/// must be the recorded one.
pub fn check_snapshot_database(
    evidence: &ExternalSnapshotEvidence<Vec<u8>>,
    quick_check: &str,
    page_size: u32,
) -> (r: Result<(), ExternalError>)
    ensures
        r is Ok <==> (quick_check@ == "ok"@ && page_size == evidence.sqlite_page_size),
        quick_check@ != "ok"@ ==> (r matches Err(ExternalError::SnapshotMismatch(m)) && m@
            == "SQLite quick_check returned "@ + quick_check@),
        quick_check@ == "ok"@ && page_size != evidence.sqlite_page_size ==> (r matches Err(
            ExternalError::SnapshotMismatch(m),
        ) && m@ == "SQLite page size differs from evidence"@),
{
    if !text_equal(quick_check, "ok") {
        let mut m = String::from_str("SQLite quick_check returned ");
        m.append(quick_check);
        return Err(ExternalError::SnapshotMismatch(m));
    }
    if page_size != evidence.sqlite_page_size {
        return Err(ExternalError::SnapshotMismatch(String::from_str("SQLite page size differs from evidence")));
    }
    Ok(())
}

/// Checks the checkpoint stored inside the snapshot against the evidence: it
/// must record the evidence's snapshot ID, and the evidence rebuilt from it
/// must equal the supplied evidence.
pub fn check_snapshot_state(
    evidence: &ExternalSnapshotEvidence<Vec<u8>>,
    state: &StoredState<Vec<u8>>,
) -> (r: Result<(), ExternalError>)
    ensures
        r is Ok <==> (state@.snapshot_id == Some(evidence@.snapshot_id) && evidence_of(
            state@,
            evidence@.snapshot_id,
            evidence.sqlite_page_size,
            evidence.sqlite_bytes,
            evidence@.sqlite_sha256,
        ) == evidence@),
        state@.snapshot_id != Some(evidence@.snapshot_id) ==> (r matches Err(
            ExternalError::SnapshotMismatch(m),
        ) && m@ == "embedded snapshot ID differs from evidence"@),
        state@.snapshot_id == Some(evidence@.snapshot_id) && r is Err ==> (r matches Err(
            ExternalError::SnapshotMismatch(m),
        ) && m@ == "embedded metadata differs from evidence"@),
{
    let id_matches = match &state.snapshot_id {
        Some(id) => text_equal(id.as_str(), evidence.snapshot_id.as_str()),
        None => false,
    };
    if !id_matches {
        return Err(ExternalError::SnapshotMismatch(String::from_str("embedded snapshot ID differs from evidence")));
    }
    let actual = state.snapshot_evidence(
        evidence.snapshot_id.clone(),
        evidence.sqlite_page_size,
        evidence.sqlite_bytes,
        evidence.sqlite_sha256,
    );
    if !actual.same_as(evidence) {
        return Err(ExternalError::SnapshotMismatch(String::from_str("embedded metadata differs from evidence")));
    }
    Ok(())
}

/// Checks, after a live restore, that the restored checkpoint yields exactly
/// the supplied evidence; returns that evidence.
pub fn check_restored_state(
    evidence: &ExternalSnapshotEvidence<Vec<u8>>,
    restored: &StoredState<Vec<u8>>,
) -> (r: Result<ExternalSnapshotEvidence<Vec<u8>>, ExternalError>)
    ensures
        r is Ok <==> evidence_of(
            restored@,
            evidence@.snapshot_id,
            evidence.sqlite_page_size,
            evidence.sqlite_bytes,
            evidence@.sqlite_sha256,
        ) == evidence@,
        r matches Ok(e) ==> e@ == evidence@,
        r matches Err(e) ==> (e matches ExternalError::SnapshotMismatch(m) && m@
            == "restored metadata differs from supplied evidence"@),
{
    let restored_evidence = restored.snapshot_evidence(
        evidence.snapshot_id.clone(),
        evidence.sqlite_page_size,
        evidence.sqlite_bytes,
        evidence.sqlite_sha256,
    );
    if !restored_evidence.same_as(evidence) {
        return Err(ExternalError::SnapshotMismatch(String::from_str("restored metadata differs from supplied evidence")));
    }
    Ok(restored_evidence)
}

/// What `uuid::Uuid::parse_str` makes of `text`: the hyphenated lower-case
/// form of the parsed UUID, or the text of the parse error.
pub uninterp spec fn spec_uuid_parse(text: Seq<char>) -> Result<Seq<char>, Seq<char>>;

/// Parses `text` with `uuid::Uuid::parse_str`; the contract names the outcome
/// `spec_uuid_parse(text)`: the UUID's `to_string()` form, or the error's
/// `to_string()` text. Which inputs parse is not stated.
#[verifier::external_body]
fn uuid_parse(text: &str) -> (r: Result<String, String>)
    ensures
        r is Ok <==> spec_uuid_parse(text@) is Ok,
        r matches Ok(s) ==> s@ == spec_uuid_parse(text@)->Ok_0,
        r matches Err(s) ==> s@ == spec_uuid_parse(text@)->Err_0,
{
    uuid::Uuid::parse_str(text).map(|u| u.to_string()).map_err(|e| e.to_string())
}

/// `name` placed inside directory `dir`, as `Path::join` does for a relative
/// name on Unix.
pub open spec fn path_join(dir: Seq<char>, name: Seq<char>) -> Seq<char> {
    if dir.len() == 0 {
        name
    } else if dir.last() == '/' {
        dir + name
    } else {
        dir + seq!['/'] + name
    }
}

/// Places `name` inside directory `dir`.
pub fn join_path(dir: &str, name: &str) -> (r: String)
    ensures
        r@ == path_join(dir@, name@),
{
    let cs = crate::text::str_chars(dir);
    let mut out = String::from_str(dir);
    if cs.len() > 0 && cs[cs.len() - 1] != '/' {
        crate::text::string_push(&mut out, '/');
    }
    out.append(name);
    out
}

/// Where an installed snapshot lives inside the snapshot directory: under
/// its ID in canonical UUID form, staged first under that name plus
/// `.incoming`. An ID that is not a UUID is a snapshot mismatch.
pub fn snapshot_destination(snapshots_dir: &str, snapshot_id: &str) -> (r: Result<(String, String), ExternalError>)
    ensures
        r is Ok <==> spec_uuid_parse(snapshot_id@) is Ok,
        r matches Ok((dest, staging)) ==> {
            &&& dest@ == path_join(snapshots_dir@, spec_uuid_parse(snapshot_id@)->Ok_0)
            &&& staging@ == path_join(snapshots_dir@, spec_uuid_parse(snapshot_id@)->Ok_0 + ".incoming"@)
        },
        r matches Err(e) ==> (e matches ExternalError::SnapshotMismatch(m) && m@ == spec_uuid_parse(snapshot_id@)->Err_0),
{
    match uuid_parse(snapshot_id) {
        Ok(canonical) => {
            let dest = join_path(snapshots_dir, canonical.as_str());
            let mut staged = canonical.clone();
            staged.append(".incoming");
            let staging = join_path(snapshots_dir, staged.as_str());
            Ok((dest, staging))
        },
        Err(message) => Err(ExternalError::SnapshotMismatch(message)),
    }
}

} // verus!
