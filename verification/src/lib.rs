//! Verified core of an embeddable SQLite state machine that follows a
//! caller-owned consensus log, together with the plain-value helpers of the
//! surrounding database node (typed text columns, node membership checks,
//! challenge/response authentication and server configuration checks).

pub mod client;
pub mod decimal;
pub mod error;
pub mod external;
pub mod in_flight;
pub mod init;
pub mod migration;
pub mod network;
pub mod node;
pub mod query;
pub mod server;
pub mod split_brain_check;
pub mod start;
pub mod text;
