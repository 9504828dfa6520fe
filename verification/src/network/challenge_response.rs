//! Challenge/response proof that both ends of a connection know the same
//! secret, without sending the secret.

use crate::error::{Error, ErrorView};
use crate::external::digest::{sha256, spec_sha256};
use crate::node::NodeId;
use vstd::prelude::*;

verus! {

/// The number of random bytes in a challenge.
pub const SALT_LEN: usize = 24;

/// Fills `buf` with random bytes from the operating system
/// (`getrandom::getrandom`). Whether it succeeds depends on the system, and
/// the bytes are random: only that the length is kept is stated.
#[verifier::external_body]
fn fill_random(buf: &mut Vec<u8>) -> (ok: bool)
    ensures
        final(buf)@.len() == old(buf)@.len(),
{
    getrandom::getrandom(buf.as_mut_slice()).is_ok()
}

/// A fresh random salt of `SALT_LEN` bytes, or the error the handshake
/// reports when the system cannot provide random bytes.
fn new_salt() -> (r: Result<Vec<u8>, Error>)
    ensures
        r matches Ok(v) ==> v@.len() == SALT_LEN,
        r matches Err(e) ==> e@ == ErrorView::Error("getrandom Error"@),
{
    let mut buf: Vec<u8> = Vec::new();
    let mut i: usize = 0;
    while i < SALT_LEN
        invariant
            i <= SALT_LEN,
            buf@.len() == i,
        decreases SALT_LEN - i,
    {
        buf.push(0u8);
        i = i + 1;
    }
    if fill_random(&mut buf) {
        Ok(buf)
    } else {
        Err(Error::Error(String::from_str("getrandom Error")))
    }
}

/// `a` followed by `b`.
fn concat_bytes(a: &[u8], b: &[u8]) -> (r: Vec<u8>)
    ensures
        r@ == a@ + b@,
{
    let mut out: Vec<u8> = Vec::new();
    let mut i: usize = 0;
    while i < a.len()
        invariant
            i <= a@.len(),
            out@ == a@.take(i as int),
        decreases a@.len() - i,
    {
        out.push(a[i]);
        i = i + 1;
        assert(out@ =~= a@.take(i as int));
    }
    let mut j: usize = 0;
    while j < b.len()
        invariant
            j <= b@.len(),
            out@ == a@ + b@.take(j as int),
        decreases b@.len() - j,
    {
        out.push(b[j]);
        j = j + 1;
        assert(out@ =~= a@ + b@.take(j as int));
    }
    assert(a@.take(a@.len() as int) =~= a@);
    assert(b@.take(b@.len() as int) =~= b@);
    out
}

/// The answer to `challenge` for `secret`: the SHA-256 of the challenge
/// followed by the secret.
pub open spec fn challenge_answer(challenge: Seq<u8>, secret: Seq<u8>) -> Seq<u8> {
    spec_sha256(challenge + secret)
}

/// The answer to `challenge` for `secret`, as bytes.
fn answer(challenge: &[u8], secret: &[u8]) -> (r: Vec<u8>)
    ensures
        r@ == challenge_answer(challenge@, secret@),
{
    let data = concat_bytes(challenge, secret);
    let digest = sha256(data.as_slice());
    let mut out: Vec<u8> = Vec::new();
    let mut i: usize = 0;
    while i < 32
        invariant
            i <= 32,
            digest@.len() == 32,
            out@ == digest@.take(i as int),
        decreases 32 - i,
    {
        out.push(digest[i]);
        i = i + 1;
        assert(out@ =~= digest@.take(i as int));
    }
    assert(digest@.take(32) =~= digest@);
    out
}

/// Whether `response` is the answer to `challenge` for `secret`.
pub open spec fn answer_accepted(response: Seq<u8>, challenge: Seq<u8>, secret: Seq<u8>) -> bool {
    response == challenge_answer(challenge, secret)
}

/// The message of a rejected answer.
pub open spec fn invalid_response() -> ErrorView {
    ErrorView::BadRequest("Invalid ChallengeResponse"@)
}

/// Random bytes the server sends; the client answers them.
#[derive(Debug)]
pub struct Challenge(pub Vec<u8>);

impl Challenge {
    /// A fresh random challenge of `SALT_LEN` bytes. Fails with
    /// `Error::Error("getrandom Error")` when the system cannot provide
    /// random bytes.
    pub fn new() -> (r: Result<Challenge, Error>)
        ensures
            r matches Ok(c) ==> c.0@.len() == SALT_LEN,
            r matches Err(e) ==> e@ == ErrorView::Error("getrandom Error"@),
    {
        match new_salt() {
            Ok(s) => Ok(Challenge(s)),
            Err(e) => Err(e),
        }
    }
}

/// The client's answer to a challenge, with a new challenge of its own for
/// the server.
#[derive(Debug)]
pub struct ChallengeResponse {
    pub node_id: NodeId,
    pub challenge: Vec<u8>,
    pub response: Vec<u8>,
}

impl ChallengeResponse {
    /// Answers `challenge` with `secret` and adds a fresh challenge for the
    /// server. Fails with `Error::Error("getrandom Error")` when the system
    /// cannot provide random bytes.
    pub fn new(node_id: NodeId, challenge: &Challenge, secret: &[u8]) -> (r: Result<
        ChallengeResponse,
        Error,
    >)
        ensures
            r matches Ok(cr) ==> cr.node_id == node_id && cr.response@ == challenge_answer(
                challenge.0@,
                secret@,
            ) && cr.challenge@.len() == SALT_LEN,
            r matches Err(e) ==> e@ == ErrorView::Error("getrandom Error"@),
    {
        let response = answer(challenge.0.as_slice(), secret);
        match new_salt() {
            Ok(challenge_new) => Ok(ChallengeResponse { node_id, challenge: challenge_new, response }),
            Err(e) => Err(e),
        }
    }

    /// Checks the answer against `challenge` and `secret`; on success answers
    /// the client's own challenge.
    pub fn verify(&self, challenge: &Challenge, secret: &[u8]) -> (r: Result<ResponseFinal, Error>)
        ensures
            r is Ok <==> answer_accepted(self.response@, challenge.0@, secret@),
            r matches Ok(f) ==> f.0@ == challenge_answer(self.challenge@, secret@),
            r matches Err(e) ==> e@ == invalid_response(),
    {
        let verify = answer(challenge.0.as_slice(), secret);
        if !crate::external::commit::bytes_equal(self.response.as_slice(), verify.as_slice()) {
            return Err(Error::BadRequest(String::from_str("Invalid ChallengeResponse")));
        }
        let response_new = answer(self.challenge.as_slice(), secret);
        Ok(ResponseFinal(response_new))
    }
}

/// The server's answer to the client's challenge.
#[derive(Debug)]
pub struct ResponseFinal(pub Vec<u8>);

impl ResponseFinal {
    /// Checks the server's answer to the challenge inside
    /// `challenge_response`.
    pub fn verify(&self, challenge_response: &ChallengeResponse, secret: &[u8]) -> (r: Result<
        (),
        Error,
    >)
        ensures
            r is Ok <==> answer_accepted(self.0@, challenge_response.challenge@, secret@),
            r matches Err(e) ==> e@ == invalid_response(),
    {
        let verify = answer(challenge_response.challenge.as_slice(), secret);
        if !crate::external::commit::bytes_equal(self.0.as_slice(), verify.as_slice()) {
            Err(Error::BadRequest(String::from_str("Invalid ChallengeResponse")))
        } else {
            Ok(())
        }
    }
}

/// An answer made with a secret for a challenge is accepted when checked
/// with the same secret against the same challenge: a client and a server
/// holding the same secret always complete the handshake, in both
/// directions.
pub proof fn law_shared_secret_handshake_succeeds(challenge: Seq<u8>, secret: Seq<u8>)
    ensures
        answer_accepted(challenge_answer(challenge, secret), challenge, secret),
{
}

} // verus!
