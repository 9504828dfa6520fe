//! The decisions the state-machine engine takes around storage: whether a
//! projection may be opened, rebuilt or adopted, which writes the typed
//! operation boundary permits, and what a shutdown reports.

use crate::external::error::ExternalError;
use crate::external::options::{chars_equal, durability_marker, marker_text, DirtyMarker, ExternalDurability};
use crate::external::snapshot::ExternalSnapshotEvidence;
use crate::decimal::{format_i64, int_text};
use crate::text::{str_chars, text_equal};
use vstd::prelude::*;
use vstd::utf8::encode_utf8;

verus! {

/// What opening a projection does once the marker file has been inspected.
pub struct OpenPlan {
    /// The projection files are deleted before opening (explicit rebuild).
    pub remove_projection_files: bool,
    /// The marker is removed again if opening fails before the writer starts
    /// (only when no marker existed before).
    pub init_lock_armed: bool,
    /// The marker written while the projection is open.
    pub active_marker: DirtyMarker,
}

/// Whether an existing marker demands a rebuild: anything but a clean FULL or
/// NORMAL owner marker does.
pub open spec fn marker_requires_rebuild(contents: Seq<u8>) -> bool {
    contents != encode_utf8(marker_text(DirtyMarker::ActiveFull)) && contents != encode_utf8(
        marker_text(DirtyMarker::ActiveNormal),
    )
}

/// The outcome of inspecting the marker file when opening.
pub enum OpenVerdict {
    Proceed { remove_projection_files: bool, init_lock_armed: bool },
    AdoptionRefused,
    RebuildNotRequired,
    RebuildRequired,
}

/// Opening decision: adoption never happens over an existing marker; a rebuild
/// is only done when requested and required; a required rebuild is never
/// skipped.
pub open spec fn open_verdict(marker: Option<Seq<u8>>, rebuild_projection: bool, adopt_existing: bool) -> OpenVerdict {
    if adopt_existing && marker is Some {
        OpenVerdict::AdoptionRefused
    } else {
        let rebuild_required = marker matches Some(m) && marker_requires_rebuild(m);
        if rebuild_projection {
            if !rebuild_required {
                OpenVerdict::RebuildNotRequired
            } else {
                OpenVerdict::Proceed { remove_projection_files: true, init_lock_armed: marker is None }
            }
        } else if rebuild_required {
            OpenVerdict::RebuildRequired
        } else {
            OpenVerdict::Proceed { remove_projection_files: false, init_lock_armed: marker is None }
        }
    }
}

fn bytes_equal(a: &[u8], b: &[u8]) -> (r: bool)
    ensures
        r == (a@ == b@),
{
    crate::external::commit::bytes_equal(a, b)
}

/// Decides how to open a projection from the marker file's contents (`None`
/// when there is no marker), the requested mode and durability. Refusals
/// carry `dirty_path`.
pub fn plan_open(
    durability: ExternalDurability,
    marker: &Option<Vec<u8>>,
    rebuild_projection: bool,
    adopt_existing: bool,
    dirty_path: &str,
) -> (r: Result<OpenPlan, ExternalError>)
    ensures
        ({
            let m = match marker {
                Some(v) => Some(v@),
                None => None::<Seq<u8>>,
            };
            match open_verdict(m, rebuild_projection, adopt_existing) {
                OpenVerdict::Proceed { remove_projection_files, init_lock_armed } => r matches Ok(p)
                    && p.remove_projection_files == remove_projection_files && p.init_lock_armed
                    == init_lock_armed && p.active_marker == durability_marker(durability),
                OpenVerdict::AdoptionRefused => r matches Err(ExternalError::AdoptionNotAllowed(t))
                    && t@ == "an external dirty marker already exists"@,
                OpenVerdict::RebuildNotRequired => r matches Err(
                    ExternalError::RebuildNotRequired(t),
                ) && t@ == dirty_path@,
                OpenVerdict::RebuildRequired => r matches Err(ExternalError::RebuildRequired(t))
                    && t@ == dirty_path@,
            }
        }),
{
    if adopt_existing && marker.is_some() {
        return Err(ExternalError::AdoptionNotAllowed(String::from_str("an external dirty marker already exists")));
    }
    let rebuild_required = match marker {
        Some(contents) => !(bytes_equal(contents.as_slice(), DirtyMarker::ActiveFull.bytes())
            || bytes_equal(contents.as_slice(), DirtyMarker::ActiveNormal.bytes())),
        None => false,
    };
    if rebuild_projection {
        if !rebuild_required {
            return Err(ExternalError::RebuildNotRequired(String::from_str(dirty_path)));
        }
    } else if rebuild_required {
        return Err(ExternalError::RebuildRequired(String::from_str(dirty_path)));
    }
    Ok(OpenPlan {
        remove_projection_files: rebuild_projection,
        init_lock_armed: marker.is_none(),
        active_marker: durability.dirty_marker(),
    })
}

/// Adoption needs an existing database file.
pub fn check_adoption_target(adopt_existing: bool, db_existed: bool) -> (r: Result<(), ExternalError>)
    ensures
        r is Ok <==> !(adopt_existing && !db_existed),
        r matches Err(e) ==> (e matches ExternalError::AdoptionNotAllowed(t) && t@
            == "the managed SQLite database does not exist"@),
{
    if adopt_existing && !db_existed {
        return Err(ExternalError::AdoptionNotAllowed(String::from_str("the managed SQLite database does not exist")));
    }
    Ok(())
}

/// Adoption needs a database without state-machine metadata that passes
/// `quick_check`.
pub fn check_adoption_preflight(metadata_exists: bool, quick_check: &str) -> (r: Result<(), ExternalError>)
    ensures
        r is Ok <==> (!metadata_exists && quick_check@ == "ok"@),
        metadata_exists ==> (r matches Err(ExternalError::AdoptionNotAllowed(t)) && t@
            == "external metadata already exists"@),
        !metadata_exists && quick_check@ != "ok"@ ==> (r matches Err(
            ExternalError::AdoptionNotAllowed(t),
        ) && t@ == "SQLite quick_check returned "@ + quick_check@),
{
    if metadata_exists {
        return Err(ExternalError::AdoptionNotAllowed(String::from_str("external metadata already exists")));
    }
    if !text_equal(quick_check, "ok") {
        let mut t = String::from_str("SQLite quick_check returned ");
        t.append(quick_check);
        return Err(ExternalError::AdoptionNotAllowed(t));
    }
    Ok(())
}

/// The metadata table must exist.
pub fn require_metadata(metadata_exists: bool) -> (r: Result<(), ExternalError>)
    ensures
        r is Ok <==> metadata_exists,
        r matches Err(e) ==> e is MissingMetadata,
{
    if !metadata_exists {
        return Err(ExternalError::MissingMetadata);
    }
    Ok(())
}

/// Whether a freshly opened connection creates the metadata tables (a new or
/// adopted database) rather than requiring them.
pub fn creates_metadata(db_existed: bool, adopt_existing: bool) -> (r: bool)
    ensures
        r == !(db_existed && !adopt_existing),
{
    !(db_existed && !adopt_existing)
}

/// Whether an error found while opening marks the projection as needing a
/// rebuild.
pub open spec fn spec_requires_rebuild(e: ExternalError) -> bool {
    e is MissingMetadata || e is InvalidMetadata || e is UnsupportedFormat || e is Serialization
        || e is Sqlite
}

/// Whether an error found while opening marks the projection as needing a
/// rebuild: missing or invalid metadata, an unsupported format, a decoding
/// failure or a SQLite failure.
pub fn requires_projection_rebuild(error: &ExternalError) -> (r: bool)
    ensures
        r == spec_requires_rebuild(*error),
{
    match error {
        ExternalError::MissingMetadata => true,
        ExternalError::InvalidMetadata(_) => true,
        ExternalError::UnsupportedFormat(_) => true,
        ExternalError::Serialization(_) => true,
        ExternalError::Sqlite(_) => true,
        _ => false,
    }
}

/// The debug name of a durability.
pub open spec fn durability_name(d: ExternalDurability) -> Seq<char> {
    match d {
        ExternalDurability::Full => "Full"@,
        ExternalDurability::Normal => "Normal"@,
        ExternalDurability::ReplayableOff => "ReplayableOff"@,
    }
}

fn durability_debug(d: ExternalDurability) -> (r: &'static str)
    ensures
        r@ == durability_name(d),
{
    match d {
        ExternalDurability::Full => "Full",
        ExternalDurability::Normal => "Normal",
        ExternalDurability::ReplayableOff => "ReplayableOff",
    }
}

/// Checks that SQLite reports the requested `synchronous` setting.
pub fn check_synchronous(durability: ExternalDurability, reported: i64) -> (r: Result<(), ExternalError>)
    ensures
        r is Ok <==> reported == crate::external::options::pragma_code(durability),
        r matches Err(e) ==> (e matches ExternalError::ConfigurationMismatch(t) && t@
            == "requested synchronous="@ + durability_name(durability) + ", SQLite reported "@
            + int_text(reported as int)),
{
    if reported != durability.expected_pragma_value() {
        let mut t = String::from_str("requested synchronous=");
        t.append(durability_debug(durability));
        t.append(", SQLite reported ");
        let n = format_i64(reported);
        t.append(n.as_str());
        return Err(ExternalError::ConfigurationMismatch(t));
    }
    Ok(())
}

/// Whether, after a restore attempt, the writer still serves reads (so a new
/// read pool is opened): everything but a closed, stopped or poisoned writer.
pub fn writer_can_serve_reads(restore: &Result<ExternalSnapshotEvidence<Vec<u8>>, ExternalError>) -> (r: bool)
    ensures
        r == !(restore matches Err(e) && (e is WriterClosed || e is WriterStopped
            || e is WriterPoisoned)),
{
    match restore {
        Err(ExternalError::WriterClosed) => false,
        Err(ExternalError::WriterStopped) => false,
        Err(ExternalError::WriterPoisoned(_)) => false,
        _ => true,
    }
}

/// What the writer reports when it stops: a poisoning failure first, then a
/// failure to make the projection durable, then a failure to close; `Ok` when
/// the writer may sync the database file and remove its marker.
pub fn shutdown_outcome(
    poisoned: Option<ExternalError>,
    durable: Result<(), ExternalError>,
    close: Result<(), ExternalError>,
) -> (r: Result<(), ExternalError>)
    ensures
        poisoned is Some ==> r == Err::<(), ExternalError>(poisoned->0),
        poisoned is None && durable is Err ==> r == durable,
        poisoned is None && durable is Ok && close is Err ==> r == close,
        poisoned is None && durable is Ok && close is Ok ==> r is Ok,
{
    match (poisoned, durable, close) {
        (Some(err), _, _) => Err(err),
        (None, Err(err), _) => Err(err),
        (None, Ok(()), Err(err)) => Err(err),
        (None, Ok(()), Ok(())) => Ok(()),
    }
}

/// The prefix of the state machine's own tables.
pub open spec fn protected_prefix() -> Seq<char> {
    "_hiqlite_external_"@
}

/// Whether a table, index or trigger name belongs to the state machine.
pub open spec fn is_protected(name: Seq<char>) -> bool {
    name.len() >= protected_prefix().len() && name.take(protected_prefix().len() as int)
        == protected_prefix()
}

/// Whether `name` belongs to the state machine's own tables.
pub fn protected_name(name: &str) -> (r: bool)
    ensures
        r == is_protected(name@),
{
    let prefix = str_chars("_hiqlite_external_");
    let cs = str_chars(name);
    if cs.len() < prefix.len() {
        return false;
    }
    let head = slice_prefix(cs.as_slice(), prefix.len());
    chars_equal(head.as_slice(), prefix.as_slice())
}

fn slice_prefix(cs: &[char], n: usize) -> (r: Vec<char>)
    requires
        n <= cs@.len(),
    ensures
        r@ == cs@.take(n as int),
{
    let mut out: Vec<char> = Vec::new();
    let mut i: usize = 0;
    while i < n
        invariant
            i <= n,
            n <= cs@.len(),
            out@ == cs@.take(i as int),
        decreases n - i,
    {
        out.push(cs[i]);
        i = i + 1;
        assert(out@ =~= cs@.take(i as int));
    }
    out
}

/// What a statement inside a typed operation asks SQLite to do, reduced to
/// what the write boundary decides on.
pub enum AuthRequest {
    /// Create or drop an index or a trigger.
    IndexOrTrigger { name: String, table_name: String },
    /// Create, drop, alter or analyze a (virtual) table.
    TableSchema { table_name: String },
    /// Insert, update or delete rows.
    TableWrite { table_name: String },
    /// Read a column.
    TableRead { table_name: String },
    /// Rebuild an index.
    Reindex { index_name: String },
    /// Temporary schema objects, pragmas, attach/detach, transaction control
    /// and savepoints.
    Forbidden,
    /// Anything else.
    Other,
}

/// The answer of the write boundary.
#[derive(Debug, Clone, Copy, PartialEq, Eq, Structural)]
pub enum AuthDecision {
    Allow,
    Deny,
}

/// Whether the write boundary denies a request: any access to the state
/// machine's own tables, and every statement that could escape the single
/// committed transaction.
pub open spec fn denied(req: AuthRequest) -> bool {
    match req {
        AuthRequest::IndexOrTrigger { name, table_name } => is_protected(name@) || is_protected(
            table_name@,
        ),
        AuthRequest::TableSchema { table_name } => is_protected(table_name@),
        AuthRequest::TableWrite { table_name } => is_protected(table_name@),
        AuthRequest::TableRead { table_name } => is_protected(table_name@),
        AuthRequest::Reindex { index_name } => is_protected(index_name@),
        AuthRequest::Forbidden => true,
        AuthRequest::Other => false,
    }
}

/// The write boundary applied while a typed operation runs.
pub fn external_operation_authorizer(req: &AuthRequest) -> (r: AuthDecision)
    ensures
        r == (if denied(*req) {
            AuthDecision::Deny
        } else {
            AuthDecision::Allow
        }),
{
    let deny = match req {
        AuthRequest::IndexOrTrigger { name, table_name } => protected_name(name.as_str())
            || protected_name(table_name.as_str()),
        AuthRequest::TableSchema { table_name } => protected_name(table_name.as_str()),
        AuthRequest::TableWrite { table_name } => protected_name(table_name.as_str()),
        AuthRequest::TableRead { table_name } => protected_name(table_name.as_str()),
        AuthRequest::Reindex { index_name } => protected_name(index_name.as_str()),
        AuthRequest::Forbidden => true,
        AuthRequest::Other => false,
    };
    if deny {
        AuthDecision::Deny
    } else {
        AuthDecision::Allow
    }
}

/// The guard of a dirty marker written while opening: unless disarmed, the
/// marker file at `path` is removed when the guard is dropped, so that a
/// failed open leaves no marker behind.
#[derive(Debug)]
pub struct InitLock {
    pub path: String,
    pub armed: bool,
}

impl InitLock {
    /// Keeps the marker file: the open went through.
    pub fn disarm(&mut self)
        ensures
            !final(self).armed,
            final(self).path == old(self).path,
    {
        self.armed = false;
    }

    /// Whether dropping the guard removes the marker file.
    pub fn removes_on_drop(&self) -> (r: bool)
        ensures
            r == self.armed,
    {
        self.armed
    }
}

} // verus!
