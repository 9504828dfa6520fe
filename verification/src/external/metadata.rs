//! Reading the persisted checkpoint row, and comparing it with the options
//! the state machine is opened with.

use crate::decimal::{format_i64, int_text};
use crate::external::codec::{be_value, decode_digest, decode_u64};
use crate::external::commit::{kind_code, ExternalApplied, ExternalCommit, ExternalEntryKind};
use crate::external::error::ExternalError;
use crate::external::options::{chars_equal, ExternalSqliteOptions, MAX_RECEIPT_BYTES, MAX_RECEIPT_RETENTION};
use crate::external::sequence::CommitSequence;
use crate::external::state::{StateView, StoredState};
use crate::text::{join_strs, join_with, str_chars, strs_view, text_equal};
use vstd::prelude::*;

verus! {

/// The on-disk format version of the metadata and receipts.
pub const EXTERNAL_FORMAT_VERSION: u16 = 1;

/// The raw columns of the persisted checkpoint row, as read from storage.
pub struct MetadataRow {
    pub format_version: i64,
    pub application_id: String,
    pub initial_sequence: Vec<u8>,
    pub initial_state_schema: Vec<u8>,
    pub receipt_codec: String,
    pub receipt_retention: Vec<u8>,
    pub max_receipt_bytes: Vec<u8>,
    pub last_sequence: Option<Vec<u8>>,
    pub last_coordinate: Option<Vec<u8>>,
    pub last_command_digest: Option<Vec<u8>>,
    pub last_kind: Option<i64>,
    pub last_state_schema: Option<Vec<u8>>,
    pub last_receipt_schema: Option<Vec<u8>>,
    pub last_receipt_digest: Option<Vec<u8>>,
    pub receipt_floor: Option<Vec<u8>>,
    pub snapshot_id: Option<String>,
}

/// The presence of the eight last-applied columns, in column order.
pub open spec fn last_presence(row: MetadataRow) -> Seq<bool> {
    seq![
        row.last_sequence is Some,
        row.last_coordinate is Some,
        row.last_command_digest is Some,
        row.last_kind is Some,
        row.last_state_schema is Some,
        row.last_receipt_schema is Some,
        row.last_receipt_digest is Some,
        row.receipt_floor is Some,
    ]
}

/// Whether the bytes of an optional column have the given width.
pub open spec fn width_is(b: Option<Vec<u8>>, n: nat) -> bool {
    b matches Some(v) && v@.len() == n
}

/// Whether the persisted checkpoint row describes a valid checkpoint.
pub open spec fn metadata_valid(row: MetadataRow) -> bool {
    &&& row.format_version == 1
    &&& row.initial_sequence@.len() == 8
    &&& row.initial_state_schema@.len() == 8
    &&& row.receipt_retention@.len() == 8
    &&& row.max_receipt_bytes@.len() == 8
    &&& 1 <= be_value(row.receipt_retention@) <= MAX_RECEIPT_RETENTION
    &&& 1 <= be_value(row.max_receipt_bytes@) <= MAX_RECEIPT_BYTES
    &&& ((forall|i: int| 0 <= i < 8 ==> #[trigger] last_presence(row)[i]) || (forall|i: int|
        0 <= i < 8 ==> !#[trigger] last_presence(row)[i]))
    &&& (row.last_sequence is Some ==> {
        &&& width_is(row.last_sequence, 8)
        &&& width_is(row.last_command_digest, 32)
        &&& (row.last_kind->0 == 1 || row.last_kind->0 == 2)
        &&& width_is(row.last_state_schema, 8)
        &&& width_is(row.last_receipt_schema, 8)
        &&& width_is(row.last_receipt_digest, 32)
        &&& width_is(row.receipt_floor, 8)
    })
}

/// The message for a format version that is not a 16-bit value.
pub open spec fn format_version_message(v: i64) -> Seq<char> {
    "invalid format version "@ + int_text(v as int)
}

/// Reads the persisted checkpoint row into a checkpoint.
///
/// A format version that is not a 16-bit value is invalid metadata; another
/// 16-bit version is unsupported; every other defect is invalid metadata.
pub fn load_state(row: MetadataRow) -> (r: Result<StoredState<Vec<u8>>, ExternalError>)
    ensures
        r is Ok <==> metadata_valid(row),
        !(0 <= row.format_version <= 65535) ==> (r matches Err(ExternalError::InvalidMetadata(m))
            && m@ == format_version_message(row.format_version)),
        (0 <= row.format_version <= 65535 && row.format_version != 1) ==> r == Err::<
            StoredState<Vec<u8>>,
            ExternalError,
        >(ExternalError::UnsupportedFormat(row.format_version as u16)),
        row.format_version == 1 && r is Err ==> r->Err_0 is InvalidMetadata,
        r matches Ok(s) ==> {
            &&& s.application_id@ == row.application_id@
            &&& s.initial_sequence.0 == be_value(row.initial_sequence@)
            &&& s.initial_state_schema == be_value(row.initial_state_schema@)
            &&& s.receipt_codec@ == row.receipt_codec@
            &&& s.receipt_retention == be_value(row.receipt_retention@)
            &&& s.max_receipt_bytes == be_value(row.max_receipt_bytes@)
            &&& (s.snapshot_id is Some <==> row.snapshot_id is Some)
            &&& (s.snapshot_id matches Some(x) ==> x@ == row.snapshot_id->0@)
            &&& (row.last_sequence is None ==> s.last_applied is None && s.receipt_floor is None)
            &&& (row.last_sequence is Some ==> (s.last_applied matches Some(l) && s.receipt_floor
                matches Some(f) && {
                &&& l.commit.sequence.0 == be_value(row.last_sequence->0@)
                &&& l.commit.coordinate@ == row.last_coordinate->0@
                &&& l.commit.command_digest@ == row.last_command_digest->0@
                &&& kind_code(l.kind) == row.last_kind->0
                &&& l.commit.state_schema == be_value(row.last_state_schema->0@)
                &&& l.commit.receipt_schema == be_value(row.last_receipt_schema->0@)
                &&& l.receipt_digest@ == row.last_receipt_digest->0@
                &&& f.0 == be_value(row.receipt_floor->0@)
            }))
        },
{
    if row.format_version < 0 || row.format_version > 65535 {
        let mut m = String::from_str("invalid format version ");
        let n = format_i64(row.format_version);
        m.append(n.as_str());
        return Err(ExternalError::InvalidMetadata(m));
    }
    let format_version = row.format_version as u16;
    if format_version != EXTERNAL_FORMAT_VERSION {
        return Err(ExternalError::UnsupportedFormat(format_version));
    }
    let initial_sequence = decode_u64(row.initial_sequence.as_slice(), "initial_sequence")?;
    let initial_state_schema = decode_u64(row.initial_state_schema.as_slice(), "initial_state_schema")?;
    let retention = decode_u64(row.receipt_retention.as_slice(), "receipt_retention")?;
    if retention > usize::MAX as u64 {
        return Err(ExternalError::InvalidMetadata(String::from_str("receipt_retention overflow")));
    }
    let max_bytes = decode_u64(row.max_receipt_bytes.as_slice(), "max_receipt_bytes")?;
    if max_bytes > usize::MAX as u64 {
        return Err(ExternalError::InvalidMetadata(String::from_str("max_receipt_bytes overflow")));
    }
    let receipt_retention = retention as usize;
    let max_receipt_bytes = max_bytes as usize;
    if !(1 <= receipt_retention && receipt_retention <= MAX_RECEIPT_RETENTION) {
        return Err(ExternalError::InvalidMetadata(String::from_str("receipt_retention is outside the supported range")));
    }
    if !(1 <= max_receipt_bytes && max_receipt_bytes <= MAX_RECEIPT_BYTES) {
        return Err(ExternalError::InvalidMetadata(String::from_str("max_receipt_bytes is outside the supported range")));
    }
    let present = [
        row.last_sequence.is_some(),
        row.last_coordinate.is_some(),
        row.last_command_digest.is_some(),
        row.last_kind.is_some(),
        row.last_state_schema.is_some(),
        row.last_receipt_schema.is_some(),
        row.last_receipt_digest.is_some(),
        row.receipt_floor.is_some(),
    ];
    assert(present@ =~= last_presence(row));
    let mut any_present = false;
    let mut any_absent = false;
    let mut i: usize = 0;
    while i < 8
        invariant
            i <= 8,
            present@ == last_presence(row),
            any_present == (exists|k: int| 0 <= k < i && #[trigger] present@[k]),
            any_absent == (exists|k: int| 0 <= k < i && !#[trigger] present@[k]),
        decreases 8 - i,
    {
        if present[i] {
            any_present = true;
        } else {
            any_absent = true;
        }
        i = i + 1;
    }
    if any_present && any_absent {
        return Err(ExternalError::InvalidMetadata(String::from_str("partial last-applied metadata")));
    }
    let mut last_applied: Option<ExternalApplied<Vec<u8>>> = None;
    let mut receipt_floor: Option<CommitSequence> = None;
    match (
        row.last_sequence,
        row.last_coordinate,
        row.last_command_digest,
        row.last_kind,
        row.last_state_schema,
        row.last_receipt_schema,
        row.last_receipt_digest,
        row.receipt_floor,
    ) {
        (
            Some(seq),
            Some(coordinate),
            Some(command_digest),
            Some(kind),
            Some(state_schema),
            Some(receipt_schema),
            Some(receipt_digest),
            Some(floor),
        ) => {
            let sequence = decode_u64(seq.as_slice(), "last_sequence")?;
            let command_digest = decode_digest(command_digest.as_slice(), "command_digest")?;
            let kind = ExternalEntryKind::from_i64(kind)?;
            let state_schema = decode_u64(state_schema.as_slice(), "state_schema")?;
            let receipt_schema = decode_u64(receipt_schema.as_slice(), "receipt_schema")?;
            let receipt_digest = decode_digest(receipt_digest.as_slice(), "receipt_digest")?;
            let floor = decode_u64(floor.as_slice(), "receipt_floor")?;
            last_applied = Some(ExternalApplied {
                commit: ExternalCommit {
                    sequence: CommitSequence(sequence),
                    coordinate,
                    command_digest,
                    state_schema,
                    receipt_schema,
                },
                kind,
                receipt_digest,
            });
            receipt_floor = Some(CommitSequence(floor));
        },
        _ => {
            assert(!present@[0]);
        },
    }
    Ok(StoredState {
        application_id: row.application_id,
        initial_sequence: CommitSequence(initial_sequence),
        initial_state_schema,
        receipt_codec: row.receipt_codec,
        receipt_retention,
        max_receipt_bytes,
        last_applied,
        receipt_floor,
        snapshot_id: row.snapshot_id,
    })
}

/// The names of the persisted settings that differ from the options, in the
/// order they are checked.
pub open spec fn configuration_mismatches(s: StateView, o: ExternalSqliteOptions, codec: Seq<char>) -> Seq<Seq<char>> {
    (if s.application_id != o.application_id@ { seq!["application_id"@] } else { seq![] })
    + (if s.initial_sequence != o.initial_sequence.0 { seq!["initial_sequence"@] } else { seq![] })
    + (if s.initial_state_schema != o.initial_state_schema { seq!["initial_state_schema"@] } else { seq![] })
    + (if s.receipt_codec != codec { seq!["receipt_codec"@] } else { seq![] })
    + (if s.receipt_retention != o.receipt_retention { seq!["receipt_retention"@] } else { seq![] })
    + (if s.max_receipt_bytes != o.max_receipt_bytes { seq!["max_receipt_bytes"@] } else { seq![] })
}

/// Pushes `name` onto `names` when `differs`.
fn note_mismatch<'a>(names: &mut Vec<&'a str>, differs: bool, name: &'a str)
    ensures
        strs_view(final(names)@) == strs_view(old(names)@) + (if differs {
            seq![name@]
        } else {
            Seq::<Seq<char>>::empty()
        }),
{
    if differs {
        names.push(name);
        assert(strs_view(names@) =~= strs_view(old(names)@) + seq![name@]);
    } else {
        assert(strs_view(names@) =~= strs_view(old(names)@) + Seq::<Seq<char>>::empty());
    }
}

/// Checks that the persisted settings equal the options and the receipt
/// codec; otherwise reports every differing setting, separated by `, `.
pub fn validate_configuration(
    state: &StoredState<Vec<u8>>,
    options: &ExternalSqliteOptions,
    receipt_codec: &str,
) -> (r: Result<(), ExternalError>)
    ensures
        configuration_mismatches(state@, *options, receipt_codec@).len() == 0 <==> r is Ok,
        r matches Err(e) ==> (e matches ExternalError::ConfigurationMismatch(m) && m@ == join_with(
            configuration_mismatches(state@, *options, receipt_codec@),
            ", "@,
        )),
{
    let mut names: Vec<&str> = Vec::new();
    proof {
        reveal_strlit("application_id");
        reveal_strlit("initial_sequence");
        reveal_strlit("initial_state_schema");
        reveal_strlit("receipt_codec");
        reveal_strlit("receipt_retention");
        reveal_strlit("max_receipt_bytes");
    }
    note_mismatch(&mut names, !text_equal(state.application_id.as_str(), options.application_id.as_str()), "application_id");
    note_mismatch(&mut names, state.initial_sequence.0 != options.initial_sequence.0, "initial_sequence");
    note_mismatch(&mut names, state.initial_state_schema != options.initial_state_schema, "initial_state_schema");
    note_mismatch(&mut names, !text_equal(state.receipt_codec.as_str(), receipt_codec), "receipt_codec");
    note_mismatch(&mut names, state.receipt_retention != options.receipt_retention, "receipt_retention");
    note_mismatch(&mut names, state.max_receipt_bytes != options.max_receipt_bytes, "max_receipt_bytes");
    assert(strs_view(names@) =~= configuration_mismatches(state@, *options, receipt_codec@));
    if names.len() == 0 {
        Ok(())
    } else {
        Err(ExternalError::ConfigurationMismatch(join_strs(&names, ", ")))
    }
}

} // verus!
