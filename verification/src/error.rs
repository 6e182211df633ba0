//! Error kinds that the coordinator reports.
use vstd::prelude::*;

verus! {

/// The four families of failure. None of them ends the process.
#[derive(Clone, Copy, Debug, PartialEq, Eq, Structural)]
pub enum ErrorClass {
    /// A bad index, a self-move, an empty query, a shuffle of too few entries.
    UserInput,
    /// The caller lacks the DJ role, or none is configured.
    Permission,
    /// The remote node or the voice gateway failed.
    ExternalService,
    /// Local and remote state disagree.
    Consistency,
}

/// Why a queue operation was refused. A refused operation changes nothing.
#[derive(Clone, Copy, Debug, PartialEq, Eq, Structural)]
pub enum QueueError {
    IndexOutOfRange,
    InvalidMove,
    EmptyQueue,
    CannotShuffle,
    /// The counter that hands out stable ids cannot cover the request.
    IdsExhausted,
}

impl QueueError {
    pub open spec fn spec_class(self) -> ErrorClass {
        match self {
            QueueError::IdsExhausted => ErrorClass::Consistency,
            _ => ErrorClass::UserInput,
        }
    }

    /// The family this error belongs to.
    pub fn class(self) -> (c: ErrorClass)
        ensures
            c == self.spec_class(),
    {
        match self {
            QueueError::IdsExhausted => ErrorClass::Consistency,
            _ => ErrorClass::UserInput,
        }
    }
}

} // verus!
