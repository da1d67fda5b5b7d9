use vstd::prelude::*;

verus! {

/// A failure reported after construction, as the error handler sees it.
/// Every such failure is funneled through the error channel and never
/// aborts the core: a synchronous send failure, an error event reported by
/// the transport, or an unclean connection close with its code and reason.
#[derive(Debug, Clone, PartialEq, Eq)]
pub enum ErrorValue {
    Send(String),
    Transport(String),
    UncleanClose { code: u16, reason: String },
}

/// What recording an error does to a latch: an empty latch keeps the new
/// error; a full latch stays as it is and the new error is dropped.  The
/// first pending error wins — deliberately, so that an unhandled error
/// costs bounded memory; callers that need every error install a handler
/// before the second one arrives.
pub open spec fn step_record(l: Option<ErrorValue>, e: ErrorValue) -> Option<ErrorValue> {
    if l is Some {
        l
    } else {
        Some(e)
    }
}

/// A single-slot holder for the last known unhandled error.  At most one
/// error is remembered between occurrences; see [`step_record`] for the
/// first-wins policy.
pub struct ErrorLatch {
    stored: Option<ErrorValue>,
}

impl View for ErrorLatch {
    type V = Option<ErrorValue>;

    closed spec fn view(&self) -> Option<ErrorValue> {
        self.stored
    }
}

impl ErrorLatch {
    /// An empty latch.
    pub fn new() -> (l: Self)
        ensures
            l@ is None,
    {
        ErrorLatch { stored: None }
    }

    /// Record `err` only if the latch is empty; otherwise drop it.
    pub fn record(&mut self, err: ErrorValue)
        ensures
            final(self)@ == step_record(old(self)@, err),
    {
        if self.stored.is_none() {
            self.stored = Some(err);
        }
    }

    /// Whether an error is currently remembered.
    pub fn is_set(&self) -> (r: bool)
        ensures
            r == (self@ is Some),
    {
        self.stored.is_some()
    }

    /// Remove and return the remembered error, if any.
    pub fn take(&mut self) -> (r: Option<ErrorValue>)
        ensures
            r == old(self)@,
            final(self)@ is None,
    {
        self.stored.take()
    }
}

/// The latch never holds more than one value: after two errors recorded
/// into an empty latch with no consumption in between, only the first is
/// remembered and the second is dropped.
pub proof fn lemma_first_error_wins(e1: ErrorValue, e2: ErrorValue)
    ensures
        step_record(step_record(None, e1), e2) == Some(e1),
{
}

} // verus!
