//! The task executor: drives a ready task through its two phases and delivers
//! the outcome through a one-shot completion notification.

use vstd::prelude::*;
use crate::completion::Completion;
use crate::task::{Task, TaskError, WriteTask};

verus! {

/// Runs a task to completion against its notification: `perform` computes the
/// result, `complete` converts it into the consumer-visible event, and the
/// notification fires with that event or with the error — exactly once, since
/// `fulfill` demands a pending notification. A failure of `perform` is never
/// retried; it is forwarded verbatim to `complete`.
pub fn execute<T: Task>(task: T, notify: &mut Completion<T::Event>)
    requires
        task.ready(),
        old(notify).is_pending(),
    ensures
        final(notify).fulfilled_with(T::complete_spec(task.perform_spec())),
{
    let mut t = task;
    let r = t.perform();
    let out = t.complete(r);
    notify.fulfill(out);
}

/// Write acknowledgment law: an acknowledgment task is always ready, and its
/// completion converts every outcome `perform` can produce into a success.
/// Together with `execute`'s contract, every scheduled acknowledgment fires
/// its pending notification exactly once, with no error.
pub proof fn lemma_write_acknowledgment(t: WriteTask)
    ensures
        t.ready(),
        WriteTask::complete_spec(t.perform_spec()) == Ok::<(), TaskError>(()),
{
}

} // verus!
