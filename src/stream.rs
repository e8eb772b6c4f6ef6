//! The decisions of a forward-only, single-pass stream of log lines. Whoever
//! holds the server-side cursor asks `wants_row` before each pull and hands
//! what the pull gave to `on_event`, which says what the consumer sees.

use vstd::prelude::*;
use crate::error::LogError;

verus! {

/// What one pull from the cursor gave.
#[derive(Clone, Debug, PartialEq, Eq)]
pub enum RowEvent {
    /// A decoded line.
    Row(String),
    /// The cursor is exhausted.
    End,
    /// Transport or decoding failed, with the store's message.
    Failed(String),
}

/// Whether a stream may still yield lines.
#[derive(Clone, Copy, Debug, PartialEq, Eq)]
pub struct StreamState {
    pub done: bool,
}

/// What the consumer sees for an event, given whether the stream had ended.
pub open spec fn delivered(was_done: bool, ev: RowEvent, r: Result<Option<String>, LogError>) -> bool {
    if was_done {
        r matches Ok(None)
    } else {
        match ev {
            RowEvent::Row(line) => r matches Ok(Some(l)) && l@ == line@,
            RowEvent::End => r matches Ok(None),
            RowEvent::Failed(m) => r matches Err(LogError::Storage(e)) && e@ == m@,
        }
    }
}

impl StreamState {
    /// A freshly opened stream.
    pub fn new() -> (s: StreamState)
        ensures
            !s.done,
    {
        StreamState { done: false }
    }

    /// Whether the cursor is to be pulled again; once the stream has ended
    /// or failed it never is.
    pub fn wants_row(&self) -> (r: bool)
        ensures
            r == !self.done,
    {
        !self.done
    }

    /// Takes the result of one pull. A line is passed on; exhaustion ends the
    /// stream with no error; a failure is passed on once and ends the stream.
    /// After the end every further call yields nothing.
    pub fn on_event(&mut self, ev: RowEvent) -> (r: Result<Option<String>, LogError>)
        ensures
            delivered(old(self).done, ev, r),
            final(self).done == (old(self).done || !(ev is Row)),
    {
        if self.done {
            return Ok(None);
        }
        match ev {
            RowEvent::Row(line) => Ok(Some(line)),
            RowEvent::End => {
                self.done = true;
                Ok(None)
            },
            RowEvent::Failed(m) => {
                self.done = true;
                Err(LogError::Storage(m))
            },
        }
    }
}

} // verus!
