use vstd::prelude::*;

use crate::blob::Blob;

verus! {

/// Why an issued read settled without a value.
#[derive(Clone, Copy, Debug, PartialEq, Eq, Structural)]
pub enum ReadError {
    /// The host completion fired, but its result could not be
    /// interpreted as text.
    ReadFailed,
}

/// Where a single issued read stands.
pub enum ReadState {
    /// The read was issued; no completion has fired yet.
    Pending,
    /// The completion fired and carried text, not yet handed out.
    Resolved(String),
    /// The completion fired but its result carried no text.
    Failed,
    /// The settled outcome was handed to the consumer.
    Delivered,
    /// The consumer dropped the read before taking an outcome.
    Cancelled,
}

/// The state after a host completion event carrying `result` lands on
/// a read in state `s`: a pending read resolves or fails, and a read
/// in any other state is left untouched.
pub open spec fn on_load_spec(s: ReadState, result: Option<String>) -> ReadState {
    match s {
        ReadState::Pending => match result {
            Some(text) => ReadState::Resolved(text),
            None => ReadState::Failed,
        },
        _ => s,
    }
}

/// The outcome `try_take` hands out for a read in state `s`.
pub open spec fn take_result_spec(s: ReadState) -> Option<Result<String, ReadError>> {
    match s {
        ReadState::Resolved(text) => Some(Ok(text)),
        ReadState::Failed => Some(Err(ReadError::ReadFailed)),
        _ => None,
    }
}

/// The state a read in state `s` is left in after `try_take`.
pub open spec fn take_state_spec(s: ReadState) -> ReadState {
    match s {
        ReadState::Resolved(_) => ReadState::Delivered,
        ReadState::Failed => ReadState::Delivered,
        _ => s,
    }
}

/// An idle read bridge. One bridge issues exactly one read.
pub struct FileReader {}

impl FileReader {
    /// A fresh bridge with no read issued.
    pub fn new() -> (r: FileReader) {
        FileReader {}
    }

    /// Issues a read of the blob's text, consuming the bridge. The
    /// returned handle stays pending until the surrounding runtime,
    /// which performs the host's read-as-text call against the blob's
    /// raw reference, feeds the completion event back in through
    /// [`PendingRead::on_load`].
    pub fn read_as_string<B: Blob>(self, _blob: &B) -> (r: PendingRead)
        ensures
            r.spec_state() is Pending,
    {
        PendingRead { state: ReadState::Pending }
    }
}

/// A single-consumer handle to one issued read: the resolution slot
/// that the host's one-shot completion callback fills and the awaiting
/// consumer drains, each at most once.
pub struct PendingRead {
    state: ReadState,
}

impl PendingRead {
    /// Where the read currently stands.
    pub closed spec fn spec_state(&self) -> ReadState {
        self.state
    }

    /// Feeds the host's completion event into the read. A pending read
    /// resolves when the host result carries text and fails otherwise;
    /// a read that is no longer pending is left exactly as it was, so
    /// only the first completion counts and one that fires after the
    /// consumer dropped the read is ignored.
    pub fn on_load(&mut self, result: Option<String>)
        ensures
            final(self).spec_state() == on_load_spec(old(self).spec_state(), result),
    {
        match self.state {
            ReadState::Pending => {
                match result {
                    Some(text) => {
                        self.state = ReadState::Resolved(text);
                    }
                    None => {
                        self.state = ReadState::Failed;
                    }
                }
            }
            _ => {}
        }
    }

    /// Hands the settled outcome to the consumer: resolved text comes
    /// out as `Ok`, a failed read as `Err(ReadFailed)`, and afterwards
    /// the read is spent. A read that has not settled, was cancelled,
    /// or was already drained yields `None`.
    pub fn try_take(&mut self) -> (r: Option<Result<String, ReadError>>)
        ensures
            r == take_result_spec(old(self).spec_state()),
            final(self).spec_state() == take_state_spec(old(self).spec_state()),
    {
        match &self.state {
            ReadState::Resolved(text) => {
                let out = text.clone();
                self.state = ReadState::Delivered;
                Some(Ok(out))
            }
            ReadState::Failed => {
                self.state = ReadState::Delivered;
                Some(Err(ReadError::ReadFailed))
            }
            _ => None,
        }
    }

    /// Notes that the consumer dropped the read without draining it.
    /// Completion events that fire later leave the read untouched.
    pub fn cancel(&mut self)
        ensures
            final(self).spec_state() is Cancelled,
    {
        self.state = ReadState::Cancelled;
    }

    /// Whether the read is still waiting on the host's completion.
    pub fn is_pending(&self) -> (r: bool)
        ensures
            r == (self.spec_state() is Pending),
    {
        matches!(self.state, ReadState::Pending)
    }
}

/// However a first completion event lands, any later completion event
/// leaves the read's state exactly as the first one left it: the
/// resolution slot is filled at most once.
pub proof fn lemma_completion_delivers_at_most_once(
    s: ReadState,
    first: Option<String>,
    later: Option<String>,
)
    ensures
        on_load_spec(on_load_spec(s, first), later) == on_load_spec(s, first),
{
}

/// A completion event that fires after the consumer dropped the read
/// is ignored: the state stays `Cancelled` and nothing is ever handed
/// out for it.
pub proof fn lemma_dropped_read_ignores_completion(result: Option<String>)
    ensures
        on_load_spec(ReadState::Cancelled, result) == ReadState::Cancelled,
        take_result_spec(on_load_spec(ReadState::Cancelled, result)) is None,
{
}

/// An outcome is handed out at most once: after a take that yielded
/// one, the read is spent and a second take yields nothing.
pub proof fn lemma_outcome_taken_at_most_once(s: ReadState)
    ensures
        take_result_spec(s) is Some ==> take_result_spec(take_state_spec(s)) is None,
{
}

} // verus!
