//! The receiving half of an unbounded single-producer/single-consumer channel,
//! modeled as an owned FIFO queue together with the liveness of its sending half.
//!
//! Values are delivered in send order. Once the sending half is dropped, a
//! receive on an empty queue reports disconnection instead of waiting forever.

use vstd::prelude::*;
use crate::task::TaskError;

verus! {

/// The receiving half of a channel. It exclusively owns the queued values;
/// the sending half is represented by `sender_connected`, since a value can
/// only arrive while a producer still holds that half.
pub struct Receiver {
    queue: Vec<String>,
    sender_alive: bool,
}

impl Receiver {
    /// The values sent but not yet received, oldest first.
    pub closed spec fn pending(&self) -> Seq<String> {
        self.queue@
    }

    /// Whether the sending half is still held by a producer.
    pub closed spec fn sender_connected(&self) -> bool {
        self.sender_alive
    }

    /// A fresh channel: nothing sent yet, sending half alive.
    pub fn new() -> (r: Receiver)
        ensures
            r.pending() == Seq::<String>::empty(),
            r.sender_connected(),
    {
        Receiver { queue: Vec::new(), sender_alive: true }
    }

    /// A value arriving from the sending half: enqueued after everything sent
    /// before it, so delivery order is send order.
    pub fn accept(&mut self, msg: String)
        requires
            old(self).sender_connected(),
        ensures
            final(self).pending() == old(self).pending().push(msg),
            final(self).sender_connected(),
    {
        self.queue.push(msg);
    }

    /// The sending half is dropped: no further value will ever arrive.
    pub fn disconnect(&mut self)
        ensures
            final(self).pending() == old(self).pending(),
            !final(self).sender_connected(),
    {
        self.sender_alive = false;
    }

    /// Whether a receive would return now: a value is pending, or none can
    /// ever arrive. While this is false, a blocking receive keeps waiting.
    pub fn can_receive(&self) -> (r: bool)
        ensures
            r == (self.pending().len() > 0 || !self.sender_connected()),
    {
        self.queue.len() > 0 || !self.sender_alive
    }

    /// The blocking receive, at the moment it returns: either the oldest
    /// pending value, or the disconnection error once the queue is empty and
    /// the sending half is gone.
    pub fn receive(&mut self) -> (r: Result<String, TaskError>)
        requires
            old(self).pending().len() > 0 || !old(self).sender_connected(),
        ensures
            old(self).pending().len() > 0 ==> {
                &&& r == Ok::<String, TaskError>(old(self).pending()[0])
                &&& final(self).pending() == old(self).pending().drop_first()
                &&& final(self).sender_connected() == old(self).sender_connected()
            },
            old(self).pending().len() == 0 ==> {
                &&& r == Err::<String, TaskError>(TaskError::Disconnected)
                &&& *final(self) == *old(self)
            },
    {
        if self.queue.len() > 0 {
            let m = self.queue.remove(0);
            proof {
                assert(self.queue@ =~= old(self).queue@.drop_first());
            }
            Ok(m)
        } else {
            Err(TaskError::Disconnected)
        }
    }
}

} // verus!
