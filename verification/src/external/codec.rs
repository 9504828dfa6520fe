//! The byte encodings of the persisted metadata: big-endian 8-byte integers
//! and 32-byte digests.

use crate::external::digest::Sha256Digest;
use crate::external::error::ExternalError;
use vstd::prelude::*;

verus! {

/// `256^n`.
pub open spec fn pow256(n: nat) -> nat
    decreases n,
{
    if n == 0 {
        1
    } else {
        256 * pow256((n - 1) as nat)
    }
}

/// The unsigned value of big-endian bytes.
pub open spec fn be_value(s: Seq<u8>) -> nat
    decreases s.len(),
{
    if s.len() == 0 {
        0
    } else {
        be_value(s.drop_last()) * 256 + s.last() as nat
    }
}

/// The `n` low-order bytes of `v`, most significant first.
pub open spec fn be_bytes(v: nat, n: nat) -> Seq<u8>
    decreases n,
{
    if n == 0 {
        Seq::<u8>::empty()
    } else {
        be_bytes(v / 256, (n - 1) as nat).push((v % 256) as u8)
    }
}

/// The 8 big-endian bytes of `v`.
pub open spec fn u64_be_bytes(v: u64) -> Seq<u8> {
    be_bytes(v as nat, 8)
}

proof fn lemma_pow256_positive(n: nat)
    ensures
        pow256(n) >= 1,
    decreases n,
{
    if n > 0 {
        lemma_pow256_positive((n - 1) as nat);
    }
}

/// Big-endian bytes have a value below `256^len`.
pub proof fn lemma_be_value_bound(s: Seq<u8>)
    ensures
        be_value(s) < pow256(s.len()),
    decreases s.len(),
{
    if s.len() > 0 {
        let f = s.drop_last();
        lemma_be_value_bound(f);
        let p = pow256(f.len());
        let v = be_value(f);
        let b = s.last() as nat;
        assert(v * 256 + b < 256 * p) by (nonlinear_arith)
            requires
                v < p,
                b < 256,
        ;
    }
}

/// Reading back the big-endian bytes of a value gives the value.
pub proof fn lemma_be_roundtrip(v: nat, n: nat)
    requires
        v < pow256(n),
    ensures
        be_value(be_bytes(v, n)) == v,
        be_bytes(v, n).len() == n,
    decreases n,
{
    if n == 0 {
    } else {
        let p = pow256((n - 1) as nat);
        assert(v / 256 < p) by (nonlinear_arith)
            requires
                v < 256 * p,
        ;
        lemma_be_roundtrip(v / 256, (n - 1) as nat);
        let s = be_bytes(v, n);
        assert(s.drop_last() =~= be_bytes(v / 256, (n - 1) as nat));
        assert((v % 256) < 256);
        assert(((v % 256) as u8) as nat == v % 256);
        assert((v / 256) * 256 + v % 256 == v) by (nonlinear_arith);
    }
}

fn push_be(out: &mut Vec<u8>, v: u64, n: u8)
    ensures
        final(out)@ == old(out)@ + be_bytes(v as nat, n as nat),
    decreases n,
{
    if n > 0 {
        push_be(out, v / 256, n - 1);
        out.push((v % 256) as u8);
        assert(final(out)@ =~= old(out)@ + be_bytes(v as nat, n as nat));
    } else {
        assert(final(out)@ =~= old(out)@ + be_bytes(v as nat, n as nat));
    }
}

/// The persisted form of an integer: its 8 big-endian bytes.
pub fn encode_u64(value: u64) -> (r: Vec<u8>)
    ensures
        r@ == u64_be_bytes(value),
        r@.len() == 8,
        be_value(r@) == value,
{
    let mut out: Vec<u8> = Vec::new();
    push_be(&mut out, value, 8);
    proof {
        assert(out@ =~= u64_be_bytes(value));
        assert(pow256(8) == 0x1_0000_0000_0000_0000) by { reveal_with_fuel(pow256, 9); }
        lemma_be_roundtrip(value as nat, 8);
    }
    out
}

/// The message for a field that does not hold exactly `width` bytes.
pub open spec fn width_message(field: Seq<char>, width: nat) -> Seq<char> {
    field + if width == 8 {
        " must contain exactly 8 bytes"@
    } else {
        " must contain exactly 32 bytes"@
    }
}

/// Reads a persisted integer. Anything but exactly 8 bytes is invalid
/// metadata naming `field`.
pub fn decode_u64(bytes: &[u8], field: &str) -> (r: Result<u64, ExternalError>)
    ensures
        bytes@.len() == 8 <==> r is Ok,
        r matches Ok(v) ==> v == be_value(bytes@),
        r matches Err(e) ==> (e matches ExternalError::InvalidMetadata(m) && m@ == width_message(
            field@,
            8,
        )),
{
    if bytes.len() != 8 {
        let mut m = String::from_str(field);
        m.append(" must contain exactly 8 bytes");
        return Err(ExternalError::InvalidMetadata(m));
    }
    let mut acc: u64 = 0;
    let mut i: usize = 0;
    while i < 8
        invariant
            i <= 8,
            bytes@.len() == 8,
            acc == be_value(bytes@.take(i as int)),
        decreases 8 - i,
    {
        proof {
            lemma_be_value_bound(bytes@.take(i as int));
            assert(pow256(7) == 0x100_0000_0000_0000) by { reveal_with_fuel(pow256, 8); }
            assert(bytes@.take(i + 1).drop_last() =~= bytes@.take(i as int));
            if i < 7 {
                assert(pow256(i as nat) <= pow256(7)) by {
                    lemma_pow256_monotone(i as nat, 7);
                }
            }
            assert(acc * 256 + bytes@[i as int] < 0x1_0000_0000_0000_0000) by (nonlinear_arith)
                requires
                    acc < 0x100_0000_0000_0000,
                    bytes@[i as int] < 256,
            ;
        }
        acc = acc * 256 + bytes[i] as u64;
        i = i + 1;
    }
    assert(bytes@.take(8) =~= bytes@);
    Ok(acc)
}

proof fn lemma_pow256_monotone(a: nat, b: nat)
    requires
        a <= b,
    ensures
        pow256(a) <= pow256(b),
    decreases b,
{
    if a < b {
        lemma_pow256_monotone(a, (b - 1) as nat);
        lemma_pow256_positive((b - 1) as nat);
    }
}

/// Reads a persisted digest. Anything but exactly 32 bytes is invalid
/// metadata naming `field`.
pub fn decode_digest(bytes: &[u8], field: &str) -> (r: Result<Sha256Digest, ExternalError>)
    ensures
        bytes@.len() == 32 <==> r is Ok,
        r matches Ok(d) ==> d@ == bytes@,
        r matches Err(e) ==> (e matches ExternalError::InvalidMetadata(m) && m@ == width_message(
            field@,
            32,
        )),
{
    if bytes.len() != 32 {
        let mut m = String::from_str(field);
        m.append(" must contain exactly 32 bytes");
        return Err(ExternalError::InvalidMetadata(m));
    }
    let mut out: [u8; 32] = [0u8; 32];
    let mut i: usize = 0;
    while i < 32
        invariant
            i <= 32,
            bytes@.len() == 32,
            out@.len() == 32,
            forall|k: int| 0 <= k < i ==> out@[k] == bytes@[k],
        decreases 32 - i,
    {
        out[i] = bytes[i];
        i = i + 1;
    }
    assert(out@ =~= bytes@);
    Ok(Sha256Digest(out))
}

/// Checks that decoding `field` used all of its `total` bytes: a value
/// followed by more bytes is invalid.
pub fn require_exact_decode(consumed: usize, total: usize, field: &str) -> (r: Result<(), ExternalError>)
    ensures
        r is Ok <==> consumed == total,
        r matches Err(e) ==> (e matches ExternalError::InvalidMetadata(m) && m@ == field@
            + " contains trailing bytes"@),
{
    if consumed != total {
        let mut m = String::from_str(field);
        m.append(" contains trailing bytes");
        return Err(ExternalError::InvalidMetadata(m));
    }
    Ok(())
}

} // verus!
