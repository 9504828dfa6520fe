use sha2::{Digest, Sha256};
use vstd::prelude::*;

verus! {

/// The SHA-256 digest of `data`.
pub uninterp spec fn spec_sha256(data: Seq<u8>) -> Seq<u8>;

/// Hashes `data` with `sha2::Sha256::digest`. The contract names the 32-byte
/// result `spec_sha256(data)`; nothing about the hash function itself is
/// stated.
#[verifier::external_body]
pub(crate) fn sha256(data: &[u8]) -> (r: [u8; 32])
    ensures
        r@ == spec_sha256(data@),
{
    Sha256::digest(data).into()
}

/// A SHA-256 digest used to bind canonical commands, receipts, and snapshots.
#[derive(Debug, Clone, Copy, PartialEq, Eq, Hash)]
pub struct Sha256Digest(pub [u8; 32]);

impl View for Sha256Digest {
    type V = Seq<u8>;

    open spec fn view(&self) -> Seq<u8> {
        self.0@
    }
}

impl Sha256Digest {
    /// Hashes caller-owned canonical bytes.
    ///
    /// No canonical command encoding is defined here: the caller versions its
    /// encoding and produces identical bytes for an exact retry.
    pub fn of(bytes: &[u8]) -> (r: Sha256Digest)
        ensures
            r@ == spec_sha256(bytes@),
    {
        Sha256Digest(sha256(bytes))
    }

    /// The 32 digest bytes.
    pub fn as_bytes(&self) -> (r: &[u8; 32])
        ensures
            r@ == self@,
    {
        &self.0
    }

    /// Whether both digests hold the same bytes.
    pub fn same_as(&self, other: &Sha256Digest) -> (r: bool)
        ensures
            r == (self@ == other@),
    {
        let mut i: usize = 0;
        while i < 32
            invariant
                i <= 32,
                self@.len() == 32,
                other@.len() == 32,
                forall|k: int| 0 <= k < i ==> self@[k] == other@[k],
            decreases 32 - i,
        {
            if self.0[i] != other.0[i] {
                return false;
            }
            i = i + 1;
        }
        assert(self@ =~= other@);
        true
    }
}

} // verus!
