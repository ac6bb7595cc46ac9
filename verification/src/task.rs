//! The blocking task abstraction: a unit of work performed off the consumer
//! thread, whose outcome is converted back into a consumer-visible value.

use vstd::prelude::*;
use crate::channel::Receiver;

verus! {

/// Failure indicator for a task's computation.
#[derive(Clone, Copy, PartialEq, Eq, Structural, Debug)]
pub enum TaskError {
    /// The sending half of the channel was dropped before a value arrived.
    Disconnected,
}

impl TaskError {
    /// The fixed message with which the failure is reported to the consumer.
    pub fn message(&self) -> (s: &'static str)
        ensures
            s@ == "unable to receive data"@,
    {
        "unable to receive data"
    }
}

/// A unit of possibly blocking work with a defined success/error outcome.
///
/// `perform` runs on a worker thread and may wait; `ready` says when that wait
/// is over, and `perform_spec` what it then returns. `complete` runs back in
/// the consumer's context and converts the outcome into the consumer-visible
/// event, exactly as `complete_spec` describes.
pub trait Task: Sized {
    /// The success payload `perform` produces.
    type Output;

    /// The consumer-visible value `complete` produces on success.
    type Event;

    /// Whether `perform` would return now rather than keep waiting.
    spec fn ready(&self) -> bool;

    /// The result `perform` returns once it is ready.
    spec fn perform_spec(&self) -> Result<Self::Output, TaskError>;

    /// How `complete` converts the performed result into the consumer's event.
    spec fn complete_spec(result: Result<Self::Output, TaskError>) -> Result<Self::Event, TaskError>;

    /// The computation itself; blocks the worker until ready, never the consumer.
    fn perform(&mut self) -> (r: Result<Self::Output, TaskError>)
        requires
            old(self).ready(),
        ensures
            r == old(self).perform_spec(),
    ;

    /// Converts the performed result into the consumer-visible event, consuming
    /// the task; an error outcome is passed through to be raised at the consumer.
    fn complete(self, result: Result<Self::Output, TaskError>) -> (r: Result<Self::Event, TaskError>)
        ensures
            r == Self::complete_spec(result),
    ;
}

/// The trivial acknowledgment task: performs no work and always completes
/// successfully with a unit event. Scheduled after each buffer write so the
/// consumer hears "write accepted" asynchronously.
pub struct WriteTask;

impl Task for WriteTask {
    type Output = ();

    type Event = ();

    open spec fn ready(&self) -> bool {
        true
    }

    open spec fn perform_spec(&self) -> Result<(), TaskError> {
        Ok(())
    }

    open spec fn complete_spec(result: Result<(), TaskError>) -> Result<(), TaskError> {
        Ok(())
    }

    fn perform(&mut self) -> (r: Result<(), TaskError>) {
        Ok(())
    }

    fn complete(self, result: Result<(), TaskError>) -> (r: Result<(), TaskError>) {
        Ok(())
    }
}

/// The blocking-receive task: wraps the receiving half of a channel, waits for
/// the oldest value or for disconnection, and hands the received string on as
/// the consumer-visible event.
pub struct FutureTask {
    /// The receiving half, held by no one else while the wait lasts.
    pub recv: Receiver,
}

impl Task for FutureTask {
    type Output = String;

    type Event = String;

    open spec fn ready(&self) -> bool {
        self.recv.pending().len() > 0 || !self.recv.sender_connected()
    }

    open spec fn perform_spec(&self) -> Result<String, TaskError> {
        if self.recv.pending().len() > 0 {
            Ok(self.recv.pending()[0])
        } else {
            Err(TaskError::Disconnected)
        }
    }

    open spec fn complete_spec(result: Result<String, TaskError>) -> Result<String, TaskError> {
        result
    }

    fn perform(&mut self) -> (r: Result<String, TaskError>) {
        self.recv.receive()
    }

    fn complete(self, result: Result<String, TaskError>) -> (r: Result<String, TaskError>) {
        result
    }
}

} // verus!
