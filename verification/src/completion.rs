//! One-shot completion notifications: the handle through which a task's
//! outcome is delivered back into the consumer's execution context.

use vstd::prelude::*;
use crate::task::TaskError;

verus! {

/// The two phases of a one-shot completion notification.
pub enum CompletionState<T> {
    /// No outcome delivered yet.
    Pending,
    /// The outcome, delivered exactly once: either the consumer-visible value
    /// or the error to be raised at the consumer.
    Fulfilled(Result<T, TaskError>),
}

/// A one-shot handle that resumes the consumer's pending operation with a
/// result. It can be fulfilled at most once: `fulfill` demands a pending
/// notification, and nothing ever returns a fulfilled one to pending.
pub struct Completion<T> {
    state: CompletionState<T>,
}

impl<T> Completion<T> {
    /// The notification's current phase.
    pub closed spec fn spec_state(&self) -> CompletionState<T> {
        self.state
    }

    /// Whether no outcome has been delivered yet.
    pub open spec fn is_pending(&self) -> bool {
        self.spec_state() is Pending
    }

    /// Whether exactly this outcome has been delivered.
    pub open spec fn fulfilled_with(&self, outcome: Result<T, TaskError>) -> bool {
        self.spec_state() == CompletionState::Fulfilled(outcome)
    }

    /// A fresh, pending notification.
    pub fn new() -> (c: Completion<T>)
        ensures
            c.is_pending(),
    {
        Completion { state: CompletionState::Pending }
    }

    /// Delivers the outcome. A notification fires at most once, so this
    /// demands a still-pending handle.
    pub fn fulfill(&mut self, outcome: Result<T, TaskError>)
        requires
            old(self).is_pending(),
        ensures
            final(self).fulfilled_with(outcome),
    {
        self.state = CompletionState::Fulfilled(outcome);
    }

    /// Read access to the notification's phase.
    pub fn peek(&self) -> (r: &CompletionState<T>)
        ensures
            *r == self.spec_state(),
    {
        &self.state
    }
}

} // verus!
