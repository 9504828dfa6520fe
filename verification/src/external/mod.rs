//! State-machine machinery for applications that already own consensus.
//!
//! The caller submits already-committed entries in a dense global order. The
//! functions here decide, from the persisted checkpoint and the retained
//! receipt window, whether an entry is new, an exact retry, a conflict or a
//! gap, and how the checkpoint and the receipt window change after a commit.

pub mod codec;
pub mod commit;
pub mod digest;
pub mod engine;
pub mod error;
pub mod laws;
pub mod metadata;
pub mod options;
pub mod receipts;
pub mod sequence;
pub mod snapshot;
pub mod state;
