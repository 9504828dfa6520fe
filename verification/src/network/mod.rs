//! Node-to-node plumbing that decides on plain values: the shared-secret
//! challenge/response handshake, member readiness and the management
//! requests.

pub mod access;
pub mod challenge_response;
pub mod frames;
pub mod handshake;
pub mod management;
pub mod readiness;
