//! The retained window of response receipts: what a stored row must hold,
//! what a commit adds to the window, and the checks run on the window when a
//! projection or snapshot is opened.

use crate::decimal::{format_u64, int_text};
use crate::external::codec::{be_value, decode_digest, decode_u64};
use crate::external::commit::{ExternalCommit, ExternalEntryKind, kind_code, CommitView};
use crate::external::digest::{spec_sha256, Sha256Digest};
use crate::external::error::ExternalError;
use crate::external::options::chars_equal;
use crate::external::sequence::CommitSequence;
use crate::external::state::{
    advance_codec, advance_receipt_codec, floor_for, receipt_floor_for, receipts_view,
    ReceiptView, StateView, StoredReceipt, StoredState,
};
use crate::text::str_chars;
use vstd::prelude::*;

verus! {

/// Encodes the unit response of an advance entry with
/// `bincode::serde::encode_to_vec` in the legacy configuration. bincode's serde
/// serializer writes nothing for `()`, so the result is `Ok` with no bytes.
#[verifier::external_body]
fn encode_unit_receipt() -> (r: Result<Vec<u8>, ExternalError>)
    ensures
        r is Ok,
        r->Ok_0@.len() == 0,
{
    bincode::serde::encode_to_vec(&(), bincode::config::legacy()).map_err(
        |err| ExternalError::Serialization(err.to_string()),
    )
}

/// The receipt codec recorded for an entry of `kind`.
pub open spec fn codec_for(s: StateView, kind: ExternalEntryKind) -> Seq<char> {
    match kind {
        ExternalEntryKind::Operation => s.receipt_codec,
        ExternalEntryKind::Advance => advance_codec(),
    }
}

/// What a retained receipt at sequence `seq` must hold.
pub open spec fn receipt_ok(s: StateView, r: ReceiptView, seq: int) -> bool {
    &&& r.commit.sequence == seq
    &&& r.receipt.len() <= s.max_receipt_bytes
    &&& spec_sha256(r.receipt) == r.receipt_digest
    &&& r.codec == codec_for(s, r.kind)
    &&& (r.kind == ExternalEntryKind::Advance ==> r.receipt.len() == 0)
}

/// Whether `w`, the retained receipts in ascending sequence order, is the
/// contiguous window that the checkpoint `s` promises: empty without a
/// checkpoint; otherwise exactly the sequences from the floor up to the
/// checkpoint, with the newest one matching the checkpoint.
pub open spec fn window_ok(s: StateView, w: Seq<ReceiptView>) -> bool {
    match (s.last_applied, s.receipt_floor) {
        (None, None) => w.len() == 0,
        (Some(l), Some(f)) => {
            let ls = l.commit.sequence;
            &&& f <= ls
            &&& ls - f + 1 <= s.receipt_retention
            &&& f == floor_for(ls, s.receipt_retention, s.initial_sequence)
            &&& w.len() == ls - f + 1
            &&& forall|i: int| 0 <= i < w.len() ==> receipt_ok(s, #[trigger] w[i], f + i)
            &&& w.last().commit == l.commit
            &&& w.last().kind == l.kind
            &&& w.last().receipt_digest == l.receipt_digest
        },
        _ => false,
    }
}

/// The retained receipt at `seq`, if the window holds one.
pub open spec fn window_lookup(s: StateView, w: Seq<ReceiptView>, seq: u64) -> Option<ReceiptView> {
    match s.receipt_floor {
        Some(f) => if f <= seq < f + w.len() {
            Some(w[seq - f])
        } else {
            None
        },
        None => None,
    }
}

/// The window after `r` was committed on top of checkpoint `s`: `r` is added
/// and everything below the new floor is dropped.
pub open spec fn window_after_commit(s: StateView, w: Seq<ReceiptView>, r: ReceiptView) -> Seq<
    ReceiptView,
> {
    let base: int = match s.receipt_floor {
        Some(f) => f as int,
        None => r.commit.sequence as int,
    };
    let nf = floor_for(r.commit.sequence, s.receipt_retention, s.initial_sequence);
    let ext = w.push(r);
    ext.subrange(nf - base, ext.len() as int)
}

/// The row to insert and the floor to prune below when a new entry commits.
pub struct CommitPlan {
    pub row: StoredReceipt<Vec<u8>>,
    pub floor: CommitSequence,
}

/// The receipt row recorded for `c` with response bytes `receipt`.
pub open spec fn planned_row(c: CommitView, kind: ExternalEntryKind, codec: Seq<char>, receipt: Seq<u8>) -> ReceiptView {
    ReceiptView {
        commit: c,
        kind,
        codec,
        receipt,
        receipt_digest: spec_sha256(receipt),
    }
}

/// Plans the commit of a new entry whose encoded response is `receipt`:
/// rejects a receipt above the configured maximum, and otherwise binds the
/// receipt to its digest and computes the new floor.
pub fn prepare_commit(
    state: &StoredState<Vec<u8>>,
    commit: &ExternalCommit<Vec<u8>>,
    kind: ExternalEntryKind,
    codec: &str,
    receipt: Vec<u8>,
) -> (r: Result<CommitPlan, ExternalError>)
    ensures
        receipt@.len() > state.max_receipt_bytes <==> r is Err,
        r matches Err(e) ==> (e matches ExternalError::ReceiptTooLarge { actual, maximum } && actual
            == receipt@.len() && maximum == state.max_receipt_bytes),
        r matches Ok(p) ==> p.row@ == planned_row(commit@, kind, codec@, receipt@) && p.floor.0
            == floor_for(commit.sequence.0, state.receipt_retention as nat, state.initial_sequence.0),
{
    if receipt.len() > state.max_receipt_bytes {
        return Err(
            ExternalError::ReceiptTooLarge {
                actual: receipt.len(),
                maximum: state.max_receipt_bytes,
            },
        );
    }
    let digest = Sha256Digest::of(receipt.as_slice());
    let floor = receipt_floor_for(commit.sequence, state.receipt_retention, state.initial_sequence);
    let row = StoredReceipt {
        commit: commit.duplicate(),
        kind,
        codec: String::from_str(codec),
        receipt,
        receipt_digest: digest,
    };
    Ok(CommitPlan { row, floor })
}

/// Plans the commit of an entry that only advances the frontier: its receipt
/// is the canonical encoding of `()` under the advance codec.
pub fn prepare_advance(state: &StoredState<Vec<u8>>, commit: &ExternalCommit<Vec<u8>>) -> (r: Result<
    CommitPlan,
    ExternalError,
>)
    requires
        state.max_receipt_bytes >= 1,
    ensures
        r matches Ok(p) && p.row@ == planned_row(
            commit@,
            ExternalEntryKind::Advance,
            advance_codec(),
            Seq::<u8>::empty(),
        ) && p.floor.0 == floor_for(
            commit.sequence.0,
            state.receipt_retention as nat,
            state.initial_sequence.0,
        ),
{
    let receipt = encode_unit_receipt()?;
    assert(receipt@ =~= Seq::<u8>::empty());
    prepare_commit(state, commit, ExternalEntryKind::Advance, advance_receipt_codec(), receipt)
}

/// The raw columns of one stored receipt row, as read from storage.
pub struct ReceiptRow {
    pub coordinate: Vec<u8>,
    pub command_digest: Vec<u8>,
    pub kind: i64,
    pub state_schema: Vec<u8>,
    pub receipt_schema: Vec<u8>,
    pub codec: String,
    pub receipt: Vec<u8>,
    pub receipt_digest: Vec<u8>,
}

/// The message naming a receipt sequence.
pub open spec fn at_sequence_message(prefix: Seq<char>, seq: u64, suffix: Seq<char>) -> Seq<char> {
    prefix + int_text(seq as int) + suffix
}

fn at_sequence(prefix: &str, seq: u64, suffix: &str) -> (r: String)
    ensures
        r@ == at_sequence_message(prefix@, seq, suffix@),
{
    let mut m = String::from_str(prefix);
    let n = format_u64(seq);
    m.append(n.as_str());
    m.append(suffix);
    m
}

/// Whether the raw row decodes into a receipt for `seq`.
pub open spec fn row_decodes(row: ReceiptRow, max: nat) -> bool {
    &&& row.receipt@.len() <= max
    &&& row.receipt_digest@.len() == 32
    &&& spec_sha256(row.receipt@) == row.receipt_digest@
    &&& row.command_digest@.len() == 32
    &&& row.state_schema@.len() == 8
    &&& row.receipt_schema@.len() == 8
    &&& (row.kind == 1 || row.kind == 2)
}

/// Decodes a stored receipt row for sequence `sequence`: its size must be
/// within `max_receipt_bytes`, its stored digest must be the SHA-256 of the
/// receipt, and every column must have its persisted width.
pub fn decode_receipt_row(sequence: CommitSequence, row: ReceiptRow, max_receipt_bytes: usize) -> (r:
    Result<StoredReceipt<Vec<u8>>, ExternalError>)
    ensures
        r is Ok <==> row_decodes(row, max_receipt_bytes as nat),
        r matches Err(e) ==> e is InvalidMetadata,
        r matches Ok(x) ==> {
            &&& x.commit.sequence == sequence
            &&& x.commit.coordinate@ == row.coordinate@
            &&& x.commit.command_digest@ == row.command_digest@
            &&& x.commit.state_schema == be_value(row.state_schema@)
            &&& x.commit.receipt_schema == be_value(row.receipt_schema@)
            &&& kind_code(x.kind) == row.kind
            &&& x.codec@ == row.codec@
            &&& x.receipt@ == row.receipt@
            &&& x.receipt_digest@ == row.receipt_digest@
        },
{
    if row.receipt.len() > max_receipt_bytes {
        return Err(ExternalError::InvalidMetadata(at_sequence("receipt at sequence ", sequence.0, " exceeds configured maximum")));
    }
    let receipt_digest = decode_digest(row.receipt_digest.as_slice(), "receipt_digest")?;
    let actual = Sha256Digest::of(row.receipt.as_slice());
    if !actual.same_as(&receipt_digest) {
        return Err(ExternalError::InvalidMetadata(at_sequence("receipt digest mismatch at sequence ", sequence.0, "")));
    }
    let command_digest = decode_digest(row.command_digest.as_slice(), "command_digest")?;
    let state_schema = decode_u64(row.state_schema.as_slice(), "state_schema")?;
    let receipt_schema = decode_u64(row.receipt_schema.as_slice(), "receipt_schema")?;
    let kind = ExternalEntryKind::from_i64(row.kind)?;
    Ok(StoredReceipt {
        commit: ExternalCommit {
            sequence,
            coordinate: row.coordinate,
            command_digest,
            state_schema,
            receipt_schema,
        },
        kind,
        codec: row.codec,
        receipt: row.receipt,
        receipt_digest,
    })
}

/// Whether every operation receipt in the window decoded with the caller's
/// codec (`None` records success, `Some(message)` the codec's failure).
pub open spec fn all_decodable(w: Seq<ReceiptView>, decode_errors: Seq<Option<String>>) -> bool {
    forall|i: int|
        0 <= i < w.len() ==> ((#[trigger] w[i]).kind == ExternalEntryKind::Operation ==> decode_errors[i]
            is None)
}

fn invalid(msg: &str) -> (r: ExternalError)
    ensures
        r is InvalidMetadata,
{
    ExternalError::InvalidMetadata(String::from_str(msg))
}

/// Checks that the retained receipts (in ascending sequence order) form the
/// window the checkpoint promises, and that every operation receipt decoded
/// with the caller's codec (`decode_errors[i]` for `receipts[i]`).
pub fn validate_receipt_window(
    state: &StoredState<Vec<u8>>,
    receipts: &[StoredReceipt<Vec<u8>>],
    decode_errors: &[Option<String>],
) -> (r: Result<(), ExternalError>)
    requires
        receipts@.len() == decode_errors@.len(),
    ensures
        r is Ok <==> (window_ok(state@, receipts_view(receipts@)) && all_decodable(
            receipts_view(receipts@),
            decode_errors@,
        )),
        r matches Err(e) ==> e is InvalidMetadata,
{
    let ghost w = receipts_view(receipts@);
    let ghost sv = state@;
    match (&state.last_applied, state.receipt_floor) {
        (None, None) => {
            if receipts.len() != 0 {
                return Err(invalid("receipts exist without a checkpoint"));
            }
            Ok(())
        },
        (Some(last), Some(floor)) => {
            let last_seq = last.commit.sequence.0;
            if floor.0 > last_seq {
                return Err(invalid("receipt floor exceeds checkpoint"));
            }
            let span: u64 = last_seq - floor.0;
            if span >= state.receipt_retention as u64 {
                return Err(invalid("receipt suffix exceeds configured retention"));
            }
            let expected_count: u64 = span + 1;
            let expected_floor = receipt_floor_for(
                last.commit.sequence,
                state.receipt_retention,
                state.initial_sequence,
            );
            if floor.0 != expected_floor.0 {
                return Err(invalid("receipt floor does not match configured retention"));
            }
            if receipts.len() as u64 != expected_count {
                return Err(invalid("receipt suffix count mismatch"));
            }
            let state_codec = str_chars(state.receipt_codec.as_str());
            let advance_chars = str_chars(advance_receipt_codec());
            let mut offset: usize = 0;
            while offset < receipts.len()
                invariant
                    w == receipts_view(receipts@),
                    sv == state@,
                    sv.last_applied == Some(last@),
                    sv.receipt_floor == Some(floor.0),
                    receipts@.len() == decode_errors@.len(),
                    receipts@.len() == expected_count,
                    expected_count == last_seq - floor.0 + 1,
                    state_codec@ == state.receipt_codec@,
                    advance_chars@ == advance_codec(),
                    offset <= receipts@.len(),
                    forall|i: int| 0 <= i < offset ==> receipt_ok(sv, #[trigger] w[i], floor.0 + i),
                    forall|i: int|
                        0 <= i < offset ==> ((#[trigger] w[i]).kind == ExternalEntryKind::Operation
                            ==> decode_errors@[i] is None),
                decreases receipts@.len() - offset,
            {
                let receipt = &receipts[offset];
                assert(w[offset as int] == receipt@);
                let actual = receipt.commit.sequence.0;
                if actual != floor.0 + offset as u64 {
                    return Err(invalid("receipt suffix contains a gap"));
                }
                if receipt.receipt.len() > state.max_receipt_bytes {
                    return Err(invalid("receipt exceeds configured maximum"));
                }
                let digest = Sha256Digest::of(receipt.receipt.as_slice());
                if !digest.same_as(&receipt.receipt_digest) {
                    return Err(invalid("receipt digest mismatch"));
                }
                let stored_codec = str_chars(receipt.codec.as_str());
                let codec_ok = match receipt.kind {
                    ExternalEntryKind::Operation => chars_equal(
                        stored_codec.as_slice(),
                        state_codec.as_slice(),
                    ),
                    ExternalEntryKind::Advance => chars_equal(
                        stored_codec.as_slice(),
                        advance_chars.as_slice(),
                    ),
                };
                if !codec_ok {
                    return Err(invalid("receipt codec mismatch"));
                }
                match receipt.kind {
                    ExternalEntryKind::Operation => {
                        if decode_errors[offset].is_some() {
                            return Err(invalid("operation receipt is not decodable"));
                        }
                    },
                    ExternalEntryKind::Advance => {
                        if receipt.receipt.len() != 0 {
                            return Err(invalid("advance receipt is not canonical"));
                        }
                    },
                }
                offset = offset + 1;
            }
            let newest = &receipts[receipts.len() - 1];
            assert(w.last() == newest@);
            if !newest.commit.same_as(&last.commit) || newest.kind != last.kind
                || !newest.receipt_digest.same_as(&last.receipt_digest) {
                return Err(invalid("newest receipt does not match checkpoint"));
            }
            Ok(())
        },
        _ => Err(invalid("checkpoint and receipt floor presence mismatch")),
    }
}

} // verus!
