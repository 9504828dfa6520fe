//! Laws of the dense frontier and the retained receipt window, stated over the
//! values that `classify_commit`, `update_state_after_commit` and
//! `prepare_commit` produce.

use crate::external::codec::{be_value, lemma_be_roundtrip, pow256, u64_be_bytes};
use crate::external::commit::{kind_code, AppliedView, CommitView, ExternalEntryKind};
use crate::external::snapshot::{evidence_of, snapshot_format_text, snapshot_mismatches, stale_verdict, StaleVerdict};
use crate::external::digest::spec_sha256;
use crate::external::options::{MAX_RECEIPT_BYTES, MAX_RECEIPT_RETENTION};
use crate::external::receipts::{
    codec_for, planned_row, receipt_ok, window_after_commit, window_lookup, window_ok,
};
use crate::external::state::{
    classify_outcome, floor_for, state_after_commit, Classification, ReceiptView, StateView,
};
use crate::external::engine::{open_verdict, OpenVerdict};
use crate::external::metadata::configuration_mismatches;
use crate::external::options::ExternalSqliteOptions;
use crate::external::snapshot::EvidenceView;
use crate::external::options::{marker_text, DirtyMarker};
use vstd::prelude::*;
use vstd::utf8::encode_utf8;

verus! {

/// The configuration ranges that every persisted checkpoint satisfies.
pub open spec fn config_ok(s: StateView) -> bool {
    &&& 1 <= s.receipt_retention <= MAX_RECEIPT_RETENTION
    &&& 1 <= s.max_receipt_bytes <= MAX_RECEIPT_BYTES
}

/// The state and window after the new entry `c` committed with response
/// bytes `receipt`.
pub open spec fn committed(s: StateView, w: Seq<ReceiptView>, c: CommitView, kind: ExternalEntryKind, receipt: Seq<u8>) -> (StateView, Seq<ReceiptView>) {
    (
        state_after_commit(s, c, kind, spec_sha256(receipt)),
        window_after_commit(s, w, planned_row(c, kind, codec_for(s, kind), receipt)),
    )
}

/// The preconditions under which a new entry commits.
pub open spec fn commits_new(s: StateView, w: Seq<ReceiptView>, c: CommitView, kind: ExternalEntryKind, receipt: Seq<u8>) -> bool {
    &&& config_ok(s)
    &&& window_ok(s, w)
    &&& classify_outcome(s, c, kind, codec_for(s, kind), window_lookup(s, w, c.sequence))
        == Classification::New
    &&& receipt.len() <= s.max_receipt_bytes
    &&& (kind == ExternalEntryKind::Advance ==> receipt.len() == 0)
}

/// Committing a new entry keeps the retained window well formed: afterwards
/// the window holds exactly the last `receipt_retention` sequences (never
/// below the initial sequence), ending in the new checkpoint.
pub proof fn law_commit_preserves_window(
    s: StateView,
    w: Seq<ReceiptView>,
    c: CommitView,
    kind: ExternalEntryKind,
    receipt: Seq<u8>,
)
    requires
        commits_new(s, w, c, kind, receipt),
    ensures
        window_ok(committed(s, w, c, kind, receipt).0, committed(s, w, c, kind, receipt).1),
        config_ok(committed(s, w, c, kind, receipt).0),
{
    let s2 = committed(s, w, c, kind, receipt).0;
    let w2 = committed(s, w, c, kind, receipt).1;
    let r = planned_row(c, kind, codec_for(s, kind), receipt);
    let nf = floor_for(c.sequence, s.receipt_retention, s.initial_sequence);
    let ext = w.push(r);
    match s.last_applied {
        None => {
            assert(c.sequence == s.initial_sequence);
            assert(nf == s.initial_sequence);
            assert(w.len() == 0);
            assert(w2 =~= seq![r]);
            assert(receipt_ok(s2, w2[0], nf + 0));
        },
        Some(l) => {
            let f = s.receipt_floor->0;
            assert(c.sequence == l.commit.sequence + 1);
            assert(nf >= f);
            assert(nf <= c.sequence);
            assert(w2 =~= ext.subrange(nf - f, ext.len() as int));
            assert forall|i: int| 0 <= i < w2.len() implies receipt_ok(s2, #[trigger] w2[i], nf + i) by {
                assert(w2[i] == ext[nf - f + i]);
                if nf - f + i < w.len() {
                    assert(ext[nf - f + i] == w[nf - f + i]);
                    assert(receipt_ok(s, w[nf - f + i], f + (nf - f + i)));
                } else {
                    assert(ext[nf - f + i] == r);
                }
            }
            assert(w2.last() == r);
        },
    }
}

/// After a new entry commits, an exact retry of it is recognised and answered
/// with the receipt that was just written.
pub proof fn law_retry_recovers_receipt(
    s: StateView,
    w: Seq<ReceiptView>,
    c: CommitView,
    kind: ExternalEntryKind,
    receipt: Seq<u8>,
)
    requires
        commits_new(s, w, c, kind, receipt),
    ensures
        ({
            let (s2, w2) = committed(s, w, c, kind, receipt);
            classify_outcome(s2, c, kind, codec_for(s, kind), window_lookup(s2, w2, c.sequence))
                == Classification::Retry(planned_row(c, kind, codec_for(s, kind), receipt))
        }),
{
    law_commit_preserves_window(s, w, c, kind, receipt);
    let (s2, w2) = committed(s, w, c, kind, receipt);
    let nf = floor_for(c.sequence, s.receipt_retention, s.initial_sequence);
    assert(w2.len() == c.sequence - nf + 1);
    assert(w2[c.sequence - nf] == w2.last());
    let r = planned_row(c, kind, codec_for(s, kind), receipt);
    assert(w2.last() == r) by {
        let ext = w.push(r);
        let base: int = match s.receipt_floor {
            Some(f) => f as int,
            None => c.sequence as int,
        };
        assert(w2 == ext.subrange(nf - base, ext.len() as int));
        assert(w2.last() == ext.last());
    }
}

/// After a new entry commits, any other entry at its sequence (another
/// coordinate, digest, schema, kind or codec) is a conflict.
pub proof fn law_reused_sequence_conflicts(
    s: StateView,
    w: Seq<ReceiptView>,
    c: CommitView,
    kind: ExternalEntryKind,
    receipt: Seq<u8>,
    other: CommitView,
    other_kind: ExternalEntryKind,
    other_codec: Seq<char>,
)
    requires
        commits_new(s, w, c, kind, receipt),
        other.sequence == c.sequence,
        other != c || other_kind != kind || other_codec != codec_for(s, kind),
    ensures
        ({
            let (s2, w2) = committed(s, w, c, kind, receipt);
            classify_outcome(s2, other, other_kind, other_codec, window_lookup(s2, w2, other.sequence))
                == Classification::Conflict(c.sequence)
        }),
{
    law_retry_recovers_receipt(s, w, c, kind, receipt);
}

/// After an entry commits at sequence `n`, exactly `n + 1` is accepted next;
/// any later sequence is a gap that names `n + 1` as expected.
pub proof fn law_frontier_is_dense(
    s: StateView,
    w: Seq<ReceiptView>,
    c: CommitView,
    kind: ExternalEntryKind,
    receipt: Seq<u8>,
    next: CommitView,
    next_kind: ExternalEntryKind,
    next_codec: Seq<char>,
    stored: Option<ReceiptView>,
)
    requires
        commits_new(s, w, c, kind, receipt),
        c.sequence < u64::MAX,
        next.sequence > c.sequence,
    ensures
        ({
            let s2 = committed(s, w, c, kind, receipt).0;
            let outcome = classify_outcome(s2, next, next_kind, next_codec, stored);
            &&& next.sequence == c.sequence + 1 ==> outcome == Classification::New
            &&& next.sequence > c.sequence + 1 ==> outcome == Classification::Gap {
                expected: (c.sequence + 1) as u64,
                received: next.sequence,
            }
        }),
{
}

/// After an entry commits at sequence `n`, the receipts of the last
/// `receipt_retention` sequences (never below the initial sequence) are
/// retained and each one answers for its own sequence; an applied sequence
/// below that window is reported as unavailable.
pub proof fn law_retention_window(
    s: StateView,
    w: Seq<ReceiptView>,
    c: CommitView,
    kind: ExternalEntryKind,
    receipt: Seq<u8>,
    q: CommitView,
    q_kind: ExternalEntryKind,
    q_codec: Seq<char>,
)
    requires
        commits_new(s, w, c, kind, receipt),
        q.sequence <= c.sequence,
    ensures
        ({
            let (s2, w2) = committed(s, w, c, kind, receipt);
            let nf = floor_for(c.sequence, s.receipt_retention, s.initial_sequence);
            &&& c.sequence - nf + 1 <= s.receipt_retention
            &&& q.sequence < nf ==> window_lookup(s2, w2, q.sequence) is None
                && classify_outcome(s2, q, q_kind, q_codec, window_lookup(s2, w2, q.sequence))
                == Classification::Unavailable(q.sequence)
            &&& nf <= q.sequence ==> (window_lookup(s2, w2, q.sequence) matches Some(x)
                && x.commit.sequence == q.sequence)
        }),
{
    law_commit_preserves_window(s, w, c, kind, receipt);
    let (s2, w2) = committed(s, w, c, kind, receipt);
    let nf = floor_for(c.sequence, s.receipt_retention, s.initial_sequence);
    if nf <= q.sequence {
        assert(receipt_ok(s2, w2[q.sequence - nf], nf + (q.sequence - nf)));
    }
}

/// Every sequence the window holds is answered with its own receipt, and an
/// exact retry of that receipt's entry recovers it.
pub proof fn law_retained_entries_recover(
    s: StateView,
    w: Seq<ReceiptView>,
    seq: u64,
)
    requires
        window_ok(s, w),
        window_lookup(s, w, seq) is Some,
    ensures
        ({
            let x = window_lookup(s, w, seq)->0;
            &&& x.commit.sequence == seq
            &&& classify_outcome(s, x.commit, x.kind, x.codec, window_lookup(s, w, seq))
                == Classification::Retry(x)
        }),
{
    let f = s.receipt_floor->0;
    assert(receipt_ok(s, w[seq - f], f + (seq - f)));
}

/// A snapshot taken at a checkpoint carries evidence that the checkpoint
/// stored inside it reproduces, that is compatible with the engine that took
/// it, and that is not stale against that engine's own checkpoint.
pub proof fn law_snapshot_evidence_matches_source(
    s: StateView,
    snapshot_id: Seq<char>,
    page_size: u32,
    bytes: u64,
    sha: Seq<u8>,
)
    requires
        config_ok(s),
        s.snapshot_id == Some(snapshot_id),
    ensures
        ({
            let e = evidence_of(s, snapshot_id, page_size, bytes, sha);
            &&& e.format_version == 1
            &&& e.snapshot_format == snapshot_format_text()
            &&& evidence_of(s, e.snapshot_id, e.sqlite_page_size, e.sqlite_bytes, e.sqlite_sha256) == e
            &&& snapshot_mismatches(s, e).len() == 0
            &&& stale_verdict(s.last_applied, e.checkpoint) == StaleVerdict::Accept
        }),
{
    let e = evidence_of(s, snapshot_id, page_size, bytes, sha);
    assert(snapshot_mismatches(s, e) =~= Seq::<Seq<char>>::empty());
}

/// Once the live checkpoint has moved past a snapshot's checkpoint, that
/// snapshot is stale; a snapshot at or beyond the live checkpoint holding the
/// same entry is accepted.
pub proof fn law_older_snapshots_are_stale(
    s: StateView,
    w: Seq<ReceiptView>,
    c: CommitView,
    kind: ExternalEntryKind,
    receipt: Seq<u8>,
    snapshot_checkpoint: Option<AppliedView>,
)
    requires
        commits_new(s, w, c, kind, receipt),
        snapshot_checkpoint == s.last_applied,
    ensures
        stale_verdict(s.last_applied, snapshot_checkpoint) == StaleVerdict::Accept,
        stale_verdict(committed(s, w, c, kind, receipt).0.last_applied, snapshot_checkpoint)
            == StaleVerdict::Stale,
{
}

/// What is written for an integer reads back as that integer: the encoding
/// has the 8 bytes that decoding asks for, and their value is the integer.
pub proof fn law_u64_codec_roundtrip(v: u64)
    ensures
        u64_be_bytes(v).len() == 8,
        be_value(u64_be_bytes(v)) == v,
{
    assert(pow256(8) == 0x1_0000_0000_0000_0000) by {
        reveal_with_fuel(pow256, 9);
    }
    lemma_be_roundtrip(v as nat, 8);
}

/// The code stored for an entry kind reads back as that kind, and the two
/// kinds have different codes.
pub proof fn law_entry_kind_code_roundtrip(kind: ExternalEntryKind)
    ensures
        kind_code(kind) == 1 <==> kind == ExternalEntryKind::Operation,
        kind_code(kind) == 2 <==> kind == ExternalEntryKind::Advance,
{
}

proof fn lemma_marker_bytes_differ(a: DirtyMarker, b: DirtyMarker)
    requires
        a != b,
    ensures
        encode_utf8(marker_text(a)) != encode_utf8(marker_text(b)),
{
    reveal_strlit("active-full\n");
    reveal_strlit("active-normal\n");
    reveal_strlit("active-replayable-off\n");
    reveal_strlit("restore-in-progress\n");
    vstd::utf8::encode_utf8_decode_utf8(marker_text(a));
    vstd::utf8::encode_utf8_decode_utf8(marker_text(b));
    assert(marker_text(a) != marker_text(b)) by {
        if marker_text(a) == marker_text(b) {
            assert(marker_text(a).len() == marker_text(b).len());
            assert(marker_text(a)[7] == marker_text(b)[7]);
        }
    }
}

/// Opening fails closed: without an explicit rebuild it never deletes the
/// projection; a marker left by an unclean replayable-OFF run or by an
/// interrupted restore always requires a rebuild; a clean FULL or NORMAL
/// owner marker lets the open proceed.
pub proof fn law_open_fails_closed(marker: Option<Seq<u8>>, adopt_existing: bool)
    ensures
        open_verdict(marker, false, adopt_existing) matches OpenVerdict::Proceed {
            remove_projection_files,
            ..
        } ==> !remove_projection_files,
        open_verdict(
            Some(encode_utf8(marker_text(DirtyMarker::ActiveReplayableOff))),
            false,
            false,
        ) is RebuildRequired,
        open_verdict(Some(encode_utf8(marker_text(DirtyMarker::RestoreInProgress))), false, false) is RebuildRequired,
        open_verdict(Some(encode_utf8(marker_text(DirtyMarker::ActiveFull))), false, false) is Proceed,
        open_verdict(Some(encode_utf8(marker_text(DirtyMarker::ActiveNormal))), false, false) is Proceed,
{
    lemma_marker_bytes_differ(DirtyMarker::ActiveReplayableOff, DirtyMarker::ActiveFull);
    lemma_marker_bytes_differ(DirtyMarker::ActiveReplayableOff, DirtyMarker::ActiveNormal);
    lemma_marker_bytes_differ(DirtyMarker::RestoreInProgress, DirtyMarker::ActiveFull);
    lemma_marker_bytes_differ(DirtyMarker::RestoreInProgress, DirtyMarker::ActiveNormal);
}

/// A snapshot is compatible with the live engine exactly when it carries the
/// same application identity, initial sequence and schema, receipt codec and
/// receipt limits: evidence of another application, or with any other
/// setting changed, always reports a mismatch.
pub proof fn law_snapshot_compatible_iff_settings_equal(live: StateView, e: EvidenceView)
    ensures
        snapshot_mismatches(live, e).len() == 0 <==> (e.application_id == live.application_id
            && e.initial_sequence == live.initial_sequence
            && e.initial_state_schema == live.initial_state_schema
            && e.receipt_codec == live.receipt_codec
            && e.receipt_retention == live.receipt_retention
            && e.max_receipt_bytes == live.max_receipt_bytes),
        e.application_id != live.application_id ==> snapshot_mismatches(live, e).contains(
            "application_id"@,
        ),
{
    if e.application_id != live.application_id {
        assert(snapshot_mismatches(live, e)[0] == "application_id"@);
    }
}

/// A persisted projection opens only under the options it was created
/// with: it passes the check exactly when application identity, initial
/// sequence and schema, receipt codec and receipt limits all equal the
/// options, and a projection of another application always reports a
/// mismatch.
pub proof fn law_configuration_valid_iff_settings_equal(
    s: StateView,
    o: ExternalSqliteOptions,
    codec: Seq<char>,
)
    ensures
        configuration_mismatches(s, o, codec).len() == 0 <==> (s.application_id == o.application_id@
            && s.initial_sequence == o.initial_sequence.0
            && s.initial_state_schema == o.initial_state_schema
            && s.receipt_codec == codec
            && s.receipt_retention == o.receipt_retention
            && s.max_receipt_bytes == o.max_receipt_bytes),
        s.application_id != o.application_id@ ==> configuration_mismatches(s, o, codec).contains(
            "application_id"@,
        ),
{
    if s.application_id != o.application_id@ {
        assert(configuration_mismatches(s, o, codec)[0] == "application_id"@);
    }
}

/// Snapshot evidence carries the whole checkpoint of the state it was taken
/// from: two states that yield the same evidence agree on identity,
/// settings, last applied entry and receipt floor, so a restore check that
/// compares evidence tells any two such states apart.
pub proof fn law_evidence_determines_checkpoint(
    s1: StateView,
    s2: StateView,
    snapshot_id: Seq<char>,
    page_size: u32,
    bytes: u64,
    sha: Seq<u8>,
)
    requires
        config_ok(s1),
        config_ok(s2),
        evidence_of(s1, snapshot_id, page_size, bytes, sha) == evidence_of(
            s2,
            snapshot_id,
            page_size,
            bytes,
            sha,
        ),
    ensures
        s1.application_id == s2.application_id,
        s1.initial_sequence == s2.initial_sequence,
        s1.initial_state_schema == s2.initial_state_schema,
        s1.receipt_codec == s2.receipt_codec,
        s1.receipt_retention == s2.receipt_retention,
        s1.max_receipt_bytes == s2.max_receipt_bytes,
        s1.last_applied == s2.last_applied,
        s1.receipt_floor == s2.receipt_floor,
{
    let e1 = evidence_of(s1, snapshot_id, page_size, bytes, sha);
    let e2 = evidence_of(s2, snapshot_id, page_size, bytes, sha);
    assert(e1.receipt_floor == e2.receipt_floor);
    assert(e1.checkpoint == e2.checkpoint);
    assert(e1.receipt_retention == e2.receipt_retention);
    assert(e1.max_receipt_bytes == e2.max_receipt_bytes);
}

/// The evidence of a state names that state's receipt floor and last
/// applied entry, whatever they are.
pub proof fn law_evidence_keeps_floor_and_checkpoint(
    s: StateView,
    snapshot_id: Seq<char>,
    page_size: u32,
    bytes: u64,
    sha: Seq<u8>,
    floor: u64,
)
    requires
        s.receipt_floor == Some(floor),
    ensures
        evidence_of(s, snapshot_id, page_size, bytes, sha).receipt_floor == Some(floor),
        evidence_of(s, snapshot_id, page_size, bytes, sha).checkpoint == s.last_applied,
{
}

} // verus!
