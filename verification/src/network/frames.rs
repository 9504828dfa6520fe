//! What the WebSocket streams do with each incoming frame, and the check on
//! cache requests that arrive over the API stream.

use crate::decimal::{nat_digits, push_digits};
use crate::error::{Error, ErrorView};
use vstd::prelude::*;

verus! {

/// The kind of a WebSocket frame.
#[derive(Debug, Clone, Copy, PartialEq, Eq, Structural)]
pub enum FrameKind {
    Continuation,
    Text,
    Binary,
    Close,
    Ping,
    Pong,
}

/// What a stream does with a frame.
#[derive(Debug, Clone, Copy, PartialEq, Eq, Structural)]
pub enum FrameAction {
    /// Decode the binary payload as a message.
    Decode,
    /// Skip the frame and read the next one.
    Ignore,
    /// Stop reading and close the stream.
    Stop,
}

/// A server stream reads only binary messages: a close frame ends it, and so
/// does any other non-binary frame.
pub open spec fn server_frame_action_of(kind: FrameKind) -> FrameAction {
    match kind {
        FrameKind::Binary => FrameAction::Decode,
        _ => FrameAction::Stop,
    }
}

/// A client stream decodes binary messages, stops on a close frame and skips
/// everything else.
pub open spec fn client_frame_action_of(kind: FrameKind) -> FrameAction {
    match kind {
        FrameKind::Binary => FrameAction::Decode,
        FrameKind::Close => FrameAction::Stop,
        _ => FrameAction::Ignore,
    }
}

/// What a server stream does with a frame of `kind`.
pub fn server_frame_action(kind: FrameKind) -> (r: FrameAction)
    ensures
        r == server_frame_action_of(kind),
{
    match kind {
        FrameKind::Binary => FrameAction::Decode,
        _ => FrameAction::Stop,
    }
}

/// What a client stream does with a frame of `kind`.
pub fn client_frame_action(kind: FrameKind) -> (r: FrameAction)
    ensures
        r == client_frame_action_of(kind),
{
    match kind {
        FrameKind::Binary => FrameAction::Decode,
        FrameKind::Close => FrameAction::Stop,
        _ => FrameAction::Ignore,
    }
}

/// Both sides decode exactly the binary frames, and both stop on a close
/// frame.
pub proof fn law_streams_agree_on_binary_and_close(kind: FrameKind)
    ensures
        (server_frame_action_of(kind) == FrameAction::Decode) == (kind == FrameKind::Binary),
        (client_frame_action_of(kind) == FrameAction::Decode) == (kind == FrameKind::Binary),
        kind == FrameKind::Close ==> server_frame_action_of(kind) == FrameAction::Stop
            && client_frame_action_of(kind) == FrameAction::Stop,
{
}

/// The message for a cache index outside `0..count`.
pub open spec fn cache_index_message(index: nat, count: nat) -> Seq<char> {
    "cache index "@ + nat_digits(index) + " out of range (0.."@ + nat_digits(count) + ")"@
}

/// Checks the cache index of a request against the `count` caches before
/// the request goes to the log: an index outside `0..count` is refused.
pub fn check_cache_index(index: usize, count: usize) -> (r: Result<(), Error>)
    ensures
        index < count <==> r is Ok,
        r matches Err(e) ==> e@ == ErrorView::Error(
            cache_index_message(index as nat, count as nat),
        ),
{
    if index < count {
        return Ok(());
    }
    let mut msg = String::from_str("cache index ");
    push_digits(&mut msg, index as u64);
    msg.append(" out of range (0..");
    push_digits(&mut msg, count as u64);
    msg.append(")");
    proof {
        reveal_strlit("cache index ");
        reveal_strlit(" out of range (0..");
        reveal_strlit(")");
    }
    Err(Error::new(msg))
}

} // verus!
