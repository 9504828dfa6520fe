//! The decisions of the shared-secret handshake over a WebSocket. The
//! caller reads and writes the frames and decodes their payloads; a frame
//! that is not binary is passed as `None`.

use crate::error::{Error, ErrorView};
use crate::network::challenge_response::{
    answer_accepted, challenge_answer, invalid_response, Challenge, ChallengeResponse,
    ResponseFinal, SALT_LEN,
};
use crate::node::NodeId;
use vstd::prelude::*;

verus! {

/// The handshake in which both ends prove they hold the same secret.
pub struct HandshakeSecret;

impl HandshakeSecret {
    /// Client, first step: answers the server's challenge. A frame that is
    /// not binary is refused.
    pub fn client_answer(challenge: Option<&Challenge>, secret: &[u8], node_id: NodeId) -> (r:
        Result<ChallengeResponse, Error>)
        ensures
            challenge is None ==> (r matches Err(e) && e@ == ErrorView::BadRequest("Invalid Challenge from Server"@)),
            challenge matches Some(c) ==> (r matches Ok(cr) ==> cr.node_id == node_id
                && cr.response@ == challenge_answer(c.0@, secret@) && cr.challenge@.len()
                == SALT_LEN),
            challenge matches Some(c) ==> (r matches Err(e) ==> e@ == ErrorView::Error(
                "getrandom Error"@,
            )),
    {
        match challenge {
            Some(c) => ChallengeResponse::new(node_id, c, secret),
            None => Err(Error::BadRequest(String::from_str("Invalid Challenge from Server"))),
        }
    }

    /// Client, last step: checks the server's answer to the client's own
    /// challenge. A frame that is not binary is refused.
    pub fn client_finish(
        response: Option<&ResponseFinal>,
        challenge_response: &ChallengeResponse,
        secret: &[u8],
    ) -> (r: Result<(), Error>)
        ensures
            response is None ==> (r matches Err(e) && e@ == ErrorView::BadRequest("Invalid ResponseFinal from Server"@)),
            response matches Some(f) ==> (r is Ok <==> answer_accepted(
                f.0@,
                challenge_response.challenge@,
                secret@,
            )),
            response matches Some(f) ==> (r matches Err(e) ==> e@ == invalid_response()),
    {
        match response {
            Some(f) => f.verify(challenge_response, secret),
            None => Err(Error::BadRequest(String::from_str("Invalid ResponseFinal from Server"))),
        }
    }

    /// Server: checks the client's answer to `challenge` and, when it is
    /// right, returns the client's node id and the answer to the client's
    /// challenge. A frame that is not binary is refused.
    pub fn server_check(
        challenge_response: Option<&ChallengeResponse>,
        challenge: &Challenge,
        secret: &[u8],
    ) -> (r: Result<(NodeId, ResponseFinal), Error>)
        ensures
            challenge_response is None ==> (r matches Err(e) && e@ == ErrorView::BadRequest("Invalid ChallengeResponse from Client"@)),
            challenge_response matches Some(cr) ==> (r is Ok <==> answer_accepted(
                cr.response@,
                challenge.0@,
                secret@,
            )),
            challenge_response matches Some(cr) ==> (r matches Ok((id, f)) ==> id == cr.node_id
                && f.0@ == challenge_answer(cr.challenge@, secret@)),
            challenge_response matches Some(cr) ==> (r matches Err(e) ==> e@ == invalid_response()),
    {
        match challenge_response {
            Some(cr) => match cr.verify(challenge, secret) {
                Ok(f) => Ok((cr.node_id, f)),
                Err(e) => Err(e),
            },
            None => Err(Error::BadRequest(String::from_str("Invalid ChallengeResponse from Client"))),
        }
    }
}

} // verus!
