//! The callback-to-blocking-channel adapter: accepts values pushed by an
//! externally driven callback and exposes them to a blocking receive whose
//! outcome fires a one-shot completion notification.
//!
//! A session handles exactly one value: it services one blocking-receive task,
//! then the channel and its sending half are gone, and a later push fails
//! synchronously at its call site.

use vstd::prelude::*;
use crate::channel::Receiver;
use crate::completion::{Completion, CompletionState};
use crate::executor::execute;
use crate::task::{FutureTask, TaskError};

verus! {

/// Error raised synchronously at the push-callback call site.
#[derive(Clone, Copy, PartialEq, Eq, Structural, Debug)]
pub enum SendError {
    /// The receiving half was already dropped: the pushed value can never be
    /// delivered.
    NoReceiver,
}

impl SendError {
    /// The fixed message with which the failure is raised at the caller.
    pub fn message(&self) -> (s: &'static str)
        ensures
            s@ == "unable to send data"@,
    {
        "unable to send data"
    }
}

/// The abstract state of one bridge session.
#[verifier::ext_equal]
pub ghost struct BridgeView {
    /// Values pushed but not yet received, oldest first.
    pub pending: Seq<String>,
    /// Whether the producer still holds the push callback (the sending half).
    pub sender_connected: bool,
    /// Whether the blocking-receive task is still outstanding (the receiving
    /// half still exists).
    pub receiver_open: bool,
    /// The delivered outcome, or `None` while the notification is pending.
    pub outcome: Option<Result<String, TaskError>>,
}

impl BridgeView {
    /// Session invariant: the notification is pending exactly while the
    /// receive task is outstanding, and a closed session retains no channel.
    pub open spec fn inv(self) -> bool {
        &&& (self.receiver_open <==> self.outcome is None)
        &&& (!self.receiver_open ==> self.pending == Seq::<String>::empty()
            && !self.sender_connected)
    }

    /// A freshly set-up session: empty channel, live sending half,
    /// outstanding receive task, pending notification.
    pub open spec fn is_fresh(self) -> bool {
        &&& self.receiver_open
        &&& self.sender_connected
        &&& self.pending == Seq::<String>::empty()
        &&& self.outcome is None
    }

    /// The producer invokes the push callback with `msg`: enqueued in send
    /// order while the receiving half exists, a synchronous error otherwise.
    pub open spec fn push_step(self, msg: String) -> (BridgeView, Result<(), SendError>) {
        if self.receiver_open {
            (BridgeView { pending: self.pending.push(msg), ..self }, Ok(()))
        } else {
            (self, Err(SendError::NoReceiver))
        }
    }

    /// The producer drops the push callback: no further value can arrive.
    pub open spec fn drop_sender_step(self) -> BridgeView {
        BridgeView { sender_connected: false, ..self }
    }

    /// One scheduling step of the worker driving the receive task. If a value
    /// is pending or the sending half is gone, the blocking receive returns,
    /// the task completes, and the notification fires — with the oldest value,
    /// or with the disconnection error. Otherwise the worker keeps waiting and
    /// nothing changes.
    pub open spec fn worker_step(self) -> (BridgeView, bool) {
        if self.receiver_open && (self.pending.len() > 0 || !self.sender_connected) {
            let outcome: Result<String, TaskError> = if self.pending.len() > 0 {
                Ok(self.pending[0])
            } else {
                Err(TaskError::Disconnected)
            };
            (
                BridgeView {
                    pending: Seq::empty(),
                    sender_connected: false,
                    receiver_open: false,
                    outcome: Some(outcome),
                },
                true,
            )
        } else {
            (self, false)
        }
    }
}

/// One bridge session: the channel whose receiving half the scheduled
/// blocking-receive task owns, and the completion notification that fires
/// with that task's outcome.
pub struct Bridge {
    task: Option<FutureTask>,
    completion: Completion<String>,
}

impl View for Bridge {
    type V = BridgeView;

    closed spec fn view(&self) -> BridgeView {
        BridgeView {
            pending: match self.task {
                Some(t) => t.recv.pending(),
                None => Seq::empty(),
            },
            sender_connected: match self.task {
                Some(t) => t.recv.sender_connected(),
                None => false,
            },
            receiver_open: self.task is Some,
            outcome: match self.completion.spec_state() {
                CompletionState::Pending => None,
                CompletionState::Fulfilled(r) => Some(r),
            },
        }
    }
}

impl Bridge {
    /// Sets up a session: constructs the channel, wraps its receiving half in
    /// a blocking-receive task, and leaves the completion notification
    /// pending until that task's outcome arrives.
    pub fn new() -> (b: Bridge)
        ensures
            b@.is_fresh(),
            b@.inv(),
    {
        Bridge {
            task: Some(FutureTask { recv: Receiver::new() }),
            completion: Completion::new(),
        }
    }

    /// The push callback: called by the producer — which must still hold it —
    /// with a value to deliver. Fails synchronously at this call site when the
    /// receiving half is already gone.
    pub fn push(&mut self, msg: String) -> (r: Result<(), SendError>)
        requires
            old(self)@.receiver_open ==> old(self)@.sender_connected,
        ensures
            final(self)@ == old(self)@.push_step(msg).0,
            r == old(self)@.push_step(msg).1,
    {
        match &mut self.task {
            Some(t) => {
                t.recv.accept(msg);
                Ok(())
            },
            None => Err(SendError::NoReceiver),
        }
    }

    /// The producer releases the push callback without further calls: the
    /// sending half drops, and a waiting receive will report disconnection
    /// rather than block forever.
    pub fn drop_sender(&mut self)
        ensures
            final(self)@ == old(self)@.drop_sender_step(),
    {
        match &mut self.task {
            Some(t) => {
                t.recv.disconnect();
            },
            None => {},
        }
    }

    /// One scheduling step of the worker: if the blocking receive would
    /// return, it does, the task completes, and the notification fires —
    /// exactly once, as the session invariant keeps it pending until here.
    /// Returns whether the step made progress.
    pub fn step(&mut self) -> (progressed: bool)
        requires
            old(self)@.inv(),
        ensures
            final(self)@.inv(),
            final(self)@ == old(self)@.worker_step().0,
            progressed == old(self)@.worker_step().1,
    {
        let ready = match &self.task {
            Some(t) => t.recv.can_receive(),
            None => false,
        };
        if !ready {
            return false;
        }
        let t = match self.task.take() {
            Some(t) => t,
            None => {
                proof {
                    assert(false);
                }
                return false;
            },
        };
        execute(t, &mut self.completion);
        true
    }

    /// The notification's phase, for the consumer to inspect.
    pub fn notification(&self) -> (r: &CompletionState<String>)
        ensures
            self@.outcome is None ==> *r is Pending,
            self@.outcome matches Some(o) ==> *r == CompletionState::Fulfilled(o),
    {
        self.completion.peek()
    }
}

/// Bridge single-delivery law: from a fresh session — where the worker makes
/// no progress before the producer's callback is invoked — one push of `msg`
/// followed by the worker's receive step fires the completion notification
/// with exactly that value. Afterwards the session is closed and no further
/// step fires anything again.
pub proof fn lemma_bridge_single_delivery(v: BridgeView, msg: String)
    requires
        v.is_fresh(),
    ensures
        v.worker_step() == (v, false),
        ({
            let (v1, r1) = v.push_step(msg);
            let (v2, fired) = v1.worker_step();
            &&& r1 == Ok::<(), SendError>(())
            &&& fired
            &&& v2.outcome == Some(Ok::<String, TaskError>(msg))
            &&& !v2.receiver_open
            &&& v2.worker_step() == (v2, false)
        }),
{
}

/// Bridge disconnection law: if the producer never invokes its callback and
/// the sending half drops, the worker's next step is released — it does not
/// wait forever — and the notification fires exactly once with the
/// disconnection error.
pub proof fn lemma_bridge_disconnection(v: BridgeView)
    requires
        v.is_fresh(),
    ensures
        ({
            let v1 = v.drop_sender_step();
            let (v2, fired) = v1.worker_step();
            &&& fired
            &&& v2.outcome == Some(Err::<String, TaskError>(TaskError::Disconnected))
            &&& !v2.receiver_open
            &&& v2.worker_step() == (v2, false)
        }),
{
}

/// Send-after-no-receiver law: once the receive task has completed and the
/// channel is gone, a further invocation of the push callback raises the
/// synchronous send error and leaves the session unchanged.
pub proof fn lemma_send_after_no_receiver(v: BridgeView, msg: String)
    requires
        !v.receiver_open,
    ensures
        v.push_step(msg) == (v, Err::<(), SendError>(SendError::NoReceiver)),
{
}

} // verus!
