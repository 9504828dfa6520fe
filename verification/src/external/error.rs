use crate::external::sequence::CommitSequence;
use vstd::prelude::*;

verus! {

/// Engine and validation failures that never consume a commit sequence.
///
/// Paths and failures of the storage layer are carried as their text.
#[derive(Debug, Clone)]
pub enum ExternalError {
    /// The state machine is already open or was not shut down cleanly.
    Locked(String),
    /// The projection must be rebuilt from a validated snapshot/log.
    RebuildRequired(String),
    /// A rebuild was requested although the projection does not need one.
    RebuildNotRequired(String),
    /// An existing projection cannot be adopted.
    AdoptionNotAllowed(String),
    /// The options are invalid.
    InvalidOptions(String),
    /// The state-machine metadata is missing.
    MissingMetadata,
    /// The state-machine metadata is invalid.
    InvalidMetadata(String),
    /// Unsupported on-disk format version.
    UnsupportedFormat(u16),
    /// The configuration does not match the persisted metadata.
    ConfigurationMismatch(String),
    /// A sequence arrived that is not the next one.
    SequenceGap { expected: CommitSequence, received: CommitSequence },
    /// A sequence arrived before the configured initial sequence.
    SequenceBeforeInitial { initial: CommitSequence, received: CommitSequence },
    /// The sequence counter would overflow.
    SequenceOverflow,
    /// The identity of an entry conflicts with the retained entry at that sequence.
    CommitConflict(CommitSequence),
    /// The receipt for this sequence is outside the retained window.
    ReceiptUnavailable(CommitSequence),
    /// An encoded receipt is larger than the configured maximum.
    ReceiptTooLarge { actual: usize, maximum: usize },
    /// Encoding or decoding failed.
    Serialization(String),
    /// The SQLite layer failed.
    Sqlite(String),
    /// An I/O operation failed.
    Io(String),
    /// Setting up the state machine failed.
    Setup(String),
    /// The read pool failed.
    Pool(String),
    /// A blocking task failed.
    Join(String),
    /// The writer is no longer available.
    WriterClosed,
    /// The writer stopped before replying.
    WriterStopped,
    /// The writer was poisoned and requires a projection rebuild.
    WriterPoisoned(String),
    /// Snapshot evidence does not match its SQLite file.
    SnapshotMismatch(String),
    /// The snapshot destination already exists.
    SnapshotDestinationExists(String),
    /// The snapshot checkpoint is older than the live checkpoint.
    StaleSnapshot,
}

} // verus!
