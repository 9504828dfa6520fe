use crate::external::error::ExternalError;
use crate::external::sequence::CommitSequence;
use crate::text::{split_pieces, split_chars, str_chars};
use vstd::prelude::*;
use vstd::utf8::encode_utf8;

verus! {

/// Largest supported read pool.
pub const MAX_READ_POOL_SIZE: usize = 128;
/// Largest supported receipt retention.
pub const MAX_RECEIPT_RETENTION: usize = 1_000_000;
/// Largest supported encoded receipt size.
pub const MAX_RECEIPT_BYTES: usize = 16777216;
/// Largest supported prepared-statement cache.
pub const MAX_PREPARED_STATEMENTS: usize = 1_000_000;

/// SQLite acknowledgement durability for external commits.
#[derive(Debug, Clone, Copy, PartialEq, Eq, Structural)]
pub enum ExternalDurability {
    /// WAL `synchronous=FULL`: a successful commit waits for the WAL to reach
    /// durable storage.
    Full,
    /// WAL `synchronous=NORMAL`: a power loss may roll back a recently
    /// acknowledged transaction; the caller replays from its durable log.
    Normal,
    /// `synchronous=OFF`: only for a disposable projection that is rebuilt
    /// after an unclean shutdown. Never selected implicitly.
    ReplayableOff,
}

impl Default for ExternalDurability {
    fn default() -> (r: ExternalDurability)
        ensures
            r == ExternalDurability::Full,
    {
        ExternalDurability::Full
    }
}

/// The contents of the marker file that records what owns the projection.
#[derive(Debug, Clone, Copy, PartialEq, Eq, Structural)]
pub enum DirtyMarker {
    /// Opened with FULL durability.
    ActiveFull,
    /// Opened with NORMAL durability.
    ActiveNormal,
    /// Opened with OFF durability.
    ActiveReplayableOff,
    /// A live restore is in progress or the writer was poisoned.
    RestoreInProgress,
}

/// The text written to the marker file for each marker.
pub open spec fn marker_text(m: DirtyMarker) -> Seq<char> {
    match m {
        DirtyMarker::ActiveFull => "active-full\n"@,
        DirtyMarker::ActiveNormal => "active-normal\n"@,
        DirtyMarker::ActiveReplayableOff => "active-replayable-off\n"@,
        DirtyMarker::RestoreInProgress => "restore-in-progress\n"@,
    }
}

impl DirtyMarker {
    /// The text of the marker file.
    pub fn text(self) -> (r: &'static str)
        ensures
            r@ == marker_text(self),
    {
        match self {
            DirtyMarker::ActiveFull => "active-full\n",
            DirtyMarker::ActiveNormal => "active-normal\n",
            DirtyMarker::ActiveReplayableOff => "active-replayable-off\n",
            DirtyMarker::RestoreInProgress => "restore-in-progress\n",
        }
    }

    /// The bytes of the marker file.
    pub fn bytes(self) -> (r: &'static [u8])
        ensures
            r@ == encode_utf8(marker_text(self)),
    {
        self.text().as_bytes()
    }
}

/// The `synchronous` pragma value requested for each durability.
pub open spec fn pragma_text(d: ExternalDurability) -> Seq<char> {
    match d {
        ExternalDurability::Full => "FULL"@,
        ExternalDurability::Normal => "NORMAL"@,
        ExternalDurability::ReplayableOff => "OFF"@,
    }
}

/// The `synchronous` value SQLite reports back for each durability.
pub open spec fn pragma_code(d: ExternalDurability) -> i64 {
    match d {
        ExternalDurability::Full => 2,
        ExternalDurability::Normal => 1,
        ExternalDurability::ReplayableOff => 0,
    }
}

/// The marker written while the projection is open with each durability.
pub open spec fn durability_marker(d: ExternalDurability) -> DirtyMarker {
    match d {
        ExternalDurability::Full => DirtyMarker::ActiveFull,
        ExternalDurability::Normal => DirtyMarker::ActiveNormal,
        ExternalDurability::ReplayableOff => DirtyMarker::ActiveReplayableOff,
    }
}

impl ExternalDurability {
    /// The value given to `PRAGMA synchronous`.
    pub fn pragma_value(self) -> (r: &'static str)
        ensures
            r@ == pragma_text(self),
    {
        match self {
            ExternalDurability::Full => "FULL",
            ExternalDurability::Normal => "NORMAL",
            ExternalDurability::ReplayableOff => "OFF",
        }
    }

    /// The value `PRAGMA synchronous` reports when the request took effect.
    pub fn expected_pragma_value(self) -> (r: i64)
        ensures
            r == pragma_code(self),
    {
        match self {
            ExternalDurability::Full => 2,
            ExternalDurability::Normal => 1,
            ExternalDurability::ReplayableOff => 0,
        }
    }

    /// The marker written while the projection is open.
    pub fn dirty_marker(self) -> (r: DirtyMarker)
        ensures
            r == durability_marker(self),
    {
        match self {
            ExternalDurability::Full => DirtyMarker::ActiveFull,
            ExternalDurability::Normal => DirtyMarker::ActiveNormal,
            ExternalDurability::ReplayableOff => DirtyMarker::ActiveReplayableOff,
        }
    }
}

/// Configuration for an external SQLite state machine.
#[derive(Debug, Clone)]
pub struct ExternalSqliteOptions {
    /// Parent directory. External files live below `external_state_machine/`.
    pub data_dir: String,
    /// SQLite file name inside the managed database directory.
    pub filename: String,
    /// Stable caller-owned identity used to reject snapshots from another app.
    pub application_id: String,
    /// First dense sequence accepted by an empty state machine.
    pub initial_sequence: CommitSequence,
    /// Application schema before the first entry is applied.
    pub initial_state_schema: u64,
    pub prepared_statement_cache_capacity: usize,
    pub read_pool_size: usize,
    /// Number of contiguous response receipts retained for exact retries.
    pub receipt_retention: usize,
    /// Maximum encoded size of any one response receipt.
    pub max_receipt_bytes: usize,
    /// Defaults to [`ExternalDurability::Full`].
    pub durability: ExternalDurability,
}

/// Whether `name` is a single, non-empty, normal path component: it is not
/// absolute, does not start with `.` or `..`, and everything after its first
/// `/` is made of empty and `.` pieces only.
pub open spec fn single_normal_component(name: Seq<char>) -> bool {
    let pieces = split_pieces(name, '/');
    &&& pieces[0] != Seq::<char>::empty()
    &&& pieces[0] != "."@
    &&& pieces[0] != ".."@
    &&& forall|i: int|
        1 <= i < pieces.len() ==> (#[trigger] pieces[i] == Seq::<char>::empty() || pieces[i]
            == "."@)
}

/// The first requirement that the options break, as the message the
/// validation reports, or `None` when all hold.
pub open spec fn options_problem(o: ExternalSqliteOptions) -> Option<Seq<char>> {
    if o.application_id@.len() == 0 || encode_utf8(o.application_id@).len() > 256 {
        Some("application_id must contain 1..=256 bytes"@)
    } else if !single_normal_component(o.filename@) {
        Some("filename must be one non-empty path component"@)
    } else if !(1 <= o.read_pool_size <= MAX_READ_POOL_SIZE) {
        Some("read_pool_size must be in 1..=128"@)
    } else if !(1 <= o.receipt_retention <= MAX_RECEIPT_RETENTION) {
        Some("receipt_retention must be in 1..=1000000"@)
    } else if !(1 <= o.max_receipt_bytes <= MAX_RECEIPT_BYTES) {
        Some("max_receipt_bytes must be in 1..=16777216"@)
    } else if o.prepared_statement_cache_capacity > MAX_PREPARED_STATEMENTS {
        Some("prepared_statement_cache_capacity must be <= 1000000"@)
    } else {
        None
    }
}

/// Whether `a` and `b` hold the same characters.
pub fn chars_equal(a: &[char], b: &[char]) -> (r: bool)
    ensures
        r == (a@ == b@),
{
    if a.len() != b.len() {
        return false;
    }
    let mut i: usize = 0;
    while i < a.len()
        invariant
            i <= a@.len(),
            a@.len() == b@.len(),
            forall|k: int| 0 <= k < i ==> a@[k] == b@[k],
        decreases a@.len() - i,
    {
        if a[i] != b[i] {
            return false;
        }
        i = i + 1;
    }
    assert(a@ =~= b@);
    true
}

/// Whether `a` holds exactly one `.`.
fn is_dot(a: &[char]) -> (r: bool)
    ensures
        r == (a@ == "."@),
{
    proof {
        reveal_strlit(".");
    }
    let r = a.len() == 1 && a[0] == '.';
    proof {
        if a@.len() == 1 && a@[0] == '.' {
            assert(a@ =~= "."@);
        }
    }
    r
}

/// Whether `a` holds exactly `..`.
fn is_dot_dot(a: &[char]) -> (r: bool)
    ensures
        r == (a@ == ".."@),
{
    proof {
        reveal_strlit("..");
    }
    let r = a.len() == 2 && a[0] == '.' && a[1] == '.';
    proof {
        if a@.len() == 2 && a@[0] == '.' && a@[1] == '.' {
            assert(a@ =~= ".."@);
        }
    }
    r
}

/// Whether `name` is a single normal path component.
pub fn is_single_normal_component(name: &str) -> (r: bool)
    ensures
        r == single_normal_component(name@),
{
    let cs = str_chars(name);
    let pieces = split_chars(cs.as_slice(), '/');
    proof {
        crate::text::lemma_split_nonempty(name@, '/');
        assert(pieces@[0]@ == split_pieces(name@, '/')[0]);
    }
    let first = &pieces[0];
    if first.len() == 0 || is_dot(first.as_slice()) || is_dot_dot(first.as_slice()) {
        proof {
            if first@.len() == 0 {
                assert(first@ =~= Seq::<char>::empty());
            }
        }
        return false;
    }
    let mut i: usize = 1;
    while i < pieces.len()
        invariant
            1 <= i <= pieces@.len(),
            crate::text::pieces_view(pieces@) == split_pieces(name@, '/'),
            forall|k: int|
                1 <= k < i ==> (#[trigger] split_pieces(name@, '/')[k] == Seq::<char>::empty()
                    || split_pieces(name@, '/')[k] == "."@),
        decreases pieces@.len() - i,
    {
        let p = &pieces[i];
        assert(p@ == split_pieces(name@, '/')[i as int]);
        if !(p.len() == 0 || is_dot(p.as_slice())) {
            return false;
        }
        proof {
            if p@.len() == 0 {
                assert(p@ =~= Seq::<char>::empty());
            }
        }
        i = i + 1;
    }
    proof {
        assert(first@ != Seq::<char>::empty());
    }
    true
}

impl ExternalSqliteOptions {
    /// Default options for the given data directory and application identity.
    pub fn new(data_dir: String, application_id: String) -> (r: Self)
        ensures
            r.data_dir == data_dir,
            r.filename@ == "external.sqlite"@,
            r.application_id == application_id,
            r.initial_sequence == CommitSequence(1),
            r.initial_state_schema == 1,
            r.prepared_statement_cache_capacity == 128,
            r.read_pool_size == 4,
            r.receipt_retention == 1024,
            r.max_receipt_bytes == 65536,
            r.durability == ExternalDurability::Full,
    {
        ExternalSqliteOptions {
            data_dir,
            filename: String::from_str("external.sqlite"),
            application_id,
            initial_sequence: CommitSequence(1),
            initial_state_schema: 1,
            prepared_statement_cache_capacity: 128,
            read_pool_size: 4,
            receipt_retention: 1024,
            max_receipt_bytes: 65536,
            durability: ExternalDurability::Full,
        }
    }

    /// Checks the options; the first broken requirement is reported as
    /// `InvalidOptions` with its message.
    pub fn validate(&self) -> (r: Result<(), ExternalError>)
        ensures
            options_problem(*self) is None <==> r is Ok,
            options_problem(*self) matches Some(m) ==> (r matches Err(ExternalError::InvalidOptions(
                t,
            )) && t@ == m),
    {
        let id_len = self.application_id.as_str().as_bytes().len();
        if self.application_id.as_str().is_empty() || id_len > 256 {
            return Err(ExternalError::InvalidOptions(String::from_str("application_id must contain 1..=256 bytes")));
        }
        if !is_single_normal_component(self.filename.as_str()) {
            return Err(ExternalError::InvalidOptions(String::from_str("filename must be one non-empty path component")));
        }
        if !(1 <= self.read_pool_size && self.read_pool_size <= MAX_READ_POOL_SIZE) {
            return Err(ExternalError::InvalidOptions(String::from_str("read_pool_size must be in 1..=128")));
        }
        if !(1 <= self.receipt_retention && self.receipt_retention <= MAX_RECEIPT_RETENTION) {
            return Err(ExternalError::InvalidOptions(String::from_str("receipt_retention must be in 1..=1000000")));
        }
        if !(1 <= self.max_receipt_bytes && self.max_receipt_bytes <= MAX_RECEIPT_BYTES) {
            return Err(ExternalError::InvalidOptions(String::from_str("max_receipt_bytes must be in 1..=16777216")));
        }
        if self.prepared_statement_cache_capacity > MAX_PREPARED_STATEMENTS {
            return Err(ExternalError::InvalidOptions(String::from_str("prepared_statement_cache_capacity must be <= 1000000")));
        }
        Ok(())
    }
}

} // verus!
