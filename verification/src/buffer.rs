//! The mutable append buffer: an owned, growable byte sequence with a size
//! query. Bytes are only ever appended, never truncated or reordered.

use vstd::prelude::*;
use crate::task::WriteTask;

verus! {

/// An owned, append-only byte buffer. Each `write` copies its chunk eagerly
/// — no reference into the caller's chunk is retained — and hands back the
/// trivial acknowledgment task to be scheduled for the consumer.
pub struct WritableBuffer {
    buf: Vec<u8>,
}

impl View for WritableBuffer {
    type V = Seq<u8>;

    closed spec fn view(&self) -> Seq<u8> {
        self.buf@
    }
}

impl WritableBuffer {
    /// A fresh, empty buffer.
    pub fn new() -> (b: WritableBuffer)
        ensures
            b@ == Seq::<u8>::empty(),
    {
        WritableBuffer { buf: Vec::new() }
    }

    /// Copies `chunk` into the buffer's owned storage, appended after the
    /// existing content, and returns the acknowledgment task that signals
    /// "write accepted" to the consumer once scheduled.
    pub fn write(&mut self, chunk: &Vec<u8>) -> (t: WriteTask)
        ensures
            final(self)@ == old(self)@ + chunk@,
    {
        let n = chunk.len();
        let mut i: usize = 0;
        while i < n
            invariant
                n == chunk@.len(),
                i <= n,
                self.buf@ == old(self)@ + chunk@.take(i as int),
            decreases n - i,
        {
            self.buf.push(chunk[i]);
            proof {
                assert(old(self)@ + chunk@.take(i as int) + seq![chunk@[i as int]] =~= old(
                    self,
                )@ + chunk@.take(i + 1));
            }
            i = i + 1;
        }
        proof {
            assert(old(self)@ + chunk@.take(n as int) =~= old(self)@ + chunk@);
        }
        WriteTask
    }

    /// The current length in bytes, consistent with the most recent `write`.
    pub fn size(&self) -> (n: usize)
        ensures
            n == self@.len(),
    {
        self.buf.len()
    }

    /// Read access to the buffered bytes.
    pub fn contents(&self) -> (bytes: &Vec<u8>)
        ensures
            bytes@ == self@,
    {
        &self.buf
    }
}

/// The contents after writing each of `chunks` in call order onto contents
/// `s`: each step appends one chunk, exactly as `write` does.
pub open spec fn after_writes(s: Seq<u8>, chunks: Seq<Seq<u8>>) -> Seq<u8>
    decreases chunks.len(),
{
    if chunks.len() == 0 {
        s
    } else {
        after_writes(s + chunks.first(), chunks.drop_first())
    }
}

/// The sum of the chunks' lengths.
pub open spec fn total_len(chunks: Seq<Seq<u8>>) -> int
    decreases chunks.len(),
{
    if chunks.len() == 0 {
        0
    } else {
        chunks.first().len() + total_len(chunks.drop_first())
    }
}

/// Buffer append law: a sequence of writes, in call order, leaves the buffer
/// holding its previous contents followed by the concatenation of the chunks,
/// and grows its size by the sum of their lengths.
pub proof fn lemma_buffer_append(s: Seq<u8>, chunks: Seq<Seq<u8>>)
    ensures
        after_writes(s, chunks) == s + chunks.flatten(),
        after_writes(s, chunks).len() == s.len() + total_len(chunks),
    decreases chunks.len(),
{
    if chunks.len() == 0 {
        assert(after_writes(s, chunks) =~= s + chunks.flatten());
    } else {
        lemma_buffer_append(s + chunks.first(), chunks.drop_first());
        assert((s + chunks.first()) + chunks.drop_first().flatten() =~= s + chunks.flatten());
    }
}

} // verus!
