use crate::external::error::ExternalError;
use vstd::prelude::*;

verus! {

/// Dense ordering key for the external state machine.
///
/// The first accepted value is configured with the options' initial
/// sequence. Every later entry must be exactly the previous value plus one.
#[derive(Debug, Clone, Copy, Default, PartialEq, Eq, Structural, PartialOrd, Ord, Hash)]
pub struct CommitSequence(pub u64);

impl CommitSequence {
    /// The raw sequence number.
    pub fn get(self) -> (r: u64)
        ensures
            r == self.0,
    {
        self.0
    }

    /// The sequence directly after `self`; `SequenceOverflow` at `u64::MAX`.
    pub fn checked_next(self) -> (r: Result<CommitSequence, ExternalError>)
        ensures
            self.0 < u64::MAX <==> r is Ok,
            r matches Ok(n) ==> n.0 == self.0 + 1,
            r matches Err(e) ==> e is SequenceOverflow,
    {
        if self.0 < u64::MAX {
            Ok(CommitSequence(self.0 + 1))
        } else {
            Err(ExternalError::SequenceOverflow)
        }
    }
}

} // verus!
