//! The error type of the node-level helpers, and the HTTP status each error
//! is answered with.

use crate::node::Node;
use vstd::prelude::*;

verus! {

/// The leader a request must be forwarded to, as far as it is known.
#[derive(Debug, Clone)]
pub struct ForwardToLeader {
    pub leader_id: Option<u64>,
    pub leader_node: Option<Node>,
}

/// Failures reported by the node. Errors of the consensus layer are carried
/// as their text, together with the leader to forward to where the error
/// says so.
#[derive(Debug, Clone)]
pub enum Error {
    BadRequest(String),
    /// Serialization / deserialization errors.
    Bincode(String),
    Cache(String),
    /// Internal channel errors.
    Channel(String),
    /// A leader request was sent to a node that is not the leader.
    CheckIsLeaderError { message: String, forward: Option<ForwardToLeader> },
    /// A client write failed.
    ClientWriteError { message: String, forward: Option<ForwardToLeader> },
    Config(String),
    Connect(String),
    /// An SQLite constraint violation.
    ConstraintViolation(String),
    Cryptr(String),
    Error(String),
    InitializeError(String),
    /// A Raft leader change is in progress.
    LeaderChange(String),
    /// The query parameters could not be bound to the prepared statement.
    QueryParams(String),
    /// A query did not return any rows.
    QueryReturnedNoRows(String),
    /// The prepared statement could not be built.
    PrepareStatement(String),
    /// An internal Raft error.
    RaftError(String),
    /// A fatal internal Raft error.
    RaftErrorFatal(String),
    Request(String),
    S3(String),
    SnapshotError(String),
    /// SQLite database errors.
    Sqlite(String),
    Timeout(String),
    Token(String),
    Transaction(String),
    Unauthorized(String),
    WebSocket(String),
}

/// The kind and message of an error.
pub enum ErrorView {
    BadRequest(Seq<char>),
    Bincode(Seq<char>),
    Cache(Seq<char>),
    Channel(Seq<char>),
    CheckIsLeaderError { message: Seq<char>, forward: Option<ForwardToLeader> },
    ClientWriteError { message: Seq<char>, forward: Option<ForwardToLeader> },
    Config(Seq<char>),
    Connect(Seq<char>),
    ConstraintViolation(Seq<char>),
    Cryptr(Seq<char>),
    Error(Seq<char>),
    InitializeError(Seq<char>),
    LeaderChange(Seq<char>),
    QueryParams(Seq<char>),
    QueryReturnedNoRows(Seq<char>),
    PrepareStatement(Seq<char>),
    RaftError(Seq<char>),
    RaftErrorFatal(Seq<char>),
    Request(Seq<char>),
    S3(Seq<char>),
    SnapshotError(Seq<char>),
    Sqlite(Seq<char>),
    Timeout(Seq<char>),
    Token(Seq<char>),
    Transaction(Seq<char>),
    Unauthorized(Seq<char>),
    WebSocket(Seq<char>),
}

impl View for Error {
    type V = ErrorView;

    open spec fn view(&self) -> ErrorView {
        match self {
            Error::BadRequest(m) => ErrorView::BadRequest(m@),
            Error::Bincode(m) => ErrorView::Bincode(m@),
            Error::Cache(m) => ErrorView::Cache(m@),
            Error::Channel(m) => ErrorView::Channel(m@),
            Error::CheckIsLeaderError { message, forward } => ErrorView::CheckIsLeaderError {
                message: message@,
                forward: *forward,
            },
            Error::ClientWriteError { message, forward } => ErrorView::ClientWriteError {
                message: message@,
                forward: *forward,
            },
            Error::Config(m) => ErrorView::Config(m@),
            Error::Connect(m) => ErrorView::Connect(m@),
            Error::ConstraintViolation(m) => ErrorView::ConstraintViolation(m@),
            Error::Cryptr(m) => ErrorView::Cryptr(m@),
            Error::Error(m) => ErrorView::Error(m@),
            Error::InitializeError(m) => ErrorView::InitializeError(m@),
            Error::LeaderChange(m) => ErrorView::LeaderChange(m@),
            Error::QueryParams(m) => ErrorView::QueryParams(m@),
            Error::QueryReturnedNoRows(m) => ErrorView::QueryReturnedNoRows(m@),
            Error::PrepareStatement(m) => ErrorView::PrepareStatement(m@),
            Error::RaftError(m) => ErrorView::RaftError(m@),
            Error::RaftErrorFatal(m) => ErrorView::RaftErrorFatal(m@),
            Error::Request(m) => ErrorView::Request(m@),
            Error::S3(m) => ErrorView::S3(m@),
            Error::SnapshotError(m) => ErrorView::SnapshotError(m@),
            Error::Sqlite(m) => ErrorView::Sqlite(m@),
            Error::Timeout(m) => ErrorView::Timeout(m@),
            Error::Token(m) => ErrorView::Token(m@),
            Error::Transaction(m) => ErrorView::Transaction(m@),
            Error::Unauthorized(m) => ErrorView::Unauthorized(m@),
            Error::WebSocket(m) => ErrorView::WebSocket(m@),
        }
    }
}

/// The leader a request must be forwarded to, for the two errors that can
/// say so.
pub open spec fn forward_of(e: Error) -> Option<ForwardToLeader> {
    match e {
        Error::CheckIsLeaderError { forward, .. } => forward,
        Error::ClientWriteError { forward, .. } => forward,
        _ => None,
    }
}

/// The HTTP status an error is answered with.
pub open spec fn status_of(e: Error) -> u16 {
    match e {
        Error::BadRequest(_) => 400,
        Error::Bincode(_) => 500,
        Error::Cache(_) => 400,
        Error::Channel(_) => 500,
        Error::CheckIsLeaderError { .. } => 409,
        Error::ClientWriteError { forward, .. } => if forward is Some {
            308
        } else {
            500
        },
        Error::Config(_) => 400,
        Error::Connect(_) => 503,
        Error::ConstraintViolation(_) => 400,
        Error::Cryptr(_) => 500,
        Error::Error(_) => 400,
        Error::InitializeError(_) => 400,
        Error::LeaderChange(_) => 409,
        Error::QueryParams(_) => 400,
        Error::QueryReturnedNoRows(_) => 404,
        Error::PrepareStatement(_) => 400,
        Error::RaftError(_) => 500,
        Error::RaftErrorFatal(_) => 500,
        Error::Request(_) => 400,
        Error::S3(_) => 400,
        Error::SnapshotError(_) => 500,
        Error::Sqlite(_) => 400,
        Error::Timeout(_) => 408,
        Error::Token(_) => 401,
        Error::Transaction(_) => 500,
        Error::Unauthorized(_) => 401,
        Error::WebSocket(_) => 400,
    }
}

impl Error {
    /// A generic error with the given message.
    pub fn new(error: String) -> (r: Error)
        ensures
            r@ == ErrorView::Error(error@),
    {
        Error::Error(error)
    }

    /// The leader id and node to forward to, when this error says the
    /// request must go to the leader.
    pub fn is_forward_to_leader(&self) -> (r: Option<(Option<u64>, Option<Node>)>)
        ensures
            r is Some <==> forward_of(*self) is Some,
            r matches Some((id, node)) ==> forward_of(*self) matches Some(f) && id == f.leader_id
                && node == f.leader_node,
    {
        let forward = match self {
            Error::CheckIsLeaderError { forward, .. } => forward,
            Error::ClientWriteError { forward, .. } => forward,
            _ => {
                return None;
            },
        };
        match forward {
            Some(f) => {
                let node = match &f.leader_node {
                    Some(n) => Some(n.duplicate()),
                    None => None,
                };
                Some((f.leader_id, node))
            },
            None => None,
        }
    }

    /// The HTTP status this error is answered with.
    pub fn status_code(&self) -> (r: u16)
        ensures
            r == status_of(*self),
    {
        match self {
            Error::BadRequest(_) => 400,
            Error::Bincode(_) => 500,
            Error::Cache(_) => 400,
            Error::Channel(_) => 500,
            Error::CheckIsLeaderError { .. } => 409,
            Error::ClientWriteError { forward, .. } => if forward.is_some() {
                308
            } else {
                500
            },
            Error::Config(_) => 400,
            Error::Connect(_) => 503,
            Error::ConstraintViolation(_) => 400,
            Error::Cryptr(_) => 500,
            Error::Error(_) => 400,
            Error::InitializeError(_) => 400,
            Error::LeaderChange(_) => 409,
            Error::QueryParams(_) => 400,
            Error::QueryReturnedNoRows(_) => 404,
            Error::PrepareStatement(_) => 400,
            Error::RaftError(_) => 500,
            Error::RaftErrorFatal(_) => 500,
            Error::Request(_) => 400,
            Error::S3(_) => 400,
            Error::SnapshotError(_) => 500,
            Error::Sqlite(_) => 400,
            Error::Timeout(_) => 408,
            Error::Token(_) => 401,
            Error::Transaction(_) => 500,
            Error::Unauthorized(_) => 401,
            Error::WebSocket(_) => 400,
        }
    }
}

} // verus!
