use vstd::prelude::*;
use vstd::slice::slice_subrange;

use crate::decode::decode_output;
use crate::decode::lossy_utf8;
use crate::handles::ChildHandle;
use crate::handles::ChildStatusPoll;
use crate::handles::ReaderHandle;
use crate::handles::poll_child_exit;
use crate::handles::read_bytes;

verus! {

/// How many bytes one poll reads from the PTY at most: the fixed
/// size of the read buffer, and so the upper bound on the bytes
/// behind one output chunk.
pub const READ_BUFFER_SIZE: usize = 1024;

/// What one poll of the output sequence reports.
pub enum OutputPoll {
    /// Some child output arrived: the best-effort text decoding of
    /// the bytes read from the PTY in this poll.
    Chunk(String),
    /// The child process has exited: the sequence is over, for this
    /// poll and every later one.
    Ended,
    /// Nothing yet: no bytes could be read and the child is not known
    /// to have exited. The sequence is not over.
    NotReady,
}

/// Decide, from one child-liveness query, whether the output sequence
/// ends on this poll: exactly a reported exit ends it. A still-running
/// child and a failed query both let the poll go on to the read.
pub fn child_exit_ends_stream(status: ChildStatusPoll) -> (ends: bool)
    ensures
        ends == (status is Exited),
{
    match status {
        ChildStatusPoll::Exited => true,
        ChildStatusPoll::Running => false,
        ChildStatusPoll::Unknown => false,
    }
}

/// Decide the poll's report from one read outcome on the buffer the
/// read filled. A read of n > 0 bytes yields one chunk holding
/// exactly the best-effort decoding of those n bytes; a read of zero
/// bytes, and a failed (or would-block) read, yield "not ready" — a
/// read never ends the sequence and never raises an error.
pub fn read_outcome_report(outcome: Result<usize, ()>, buf: &[u8]) -> (r: OutputPoll)
    requires
        outcome matches Ok(n) ==> n <= buf@.len(),
    ensures
        outcome matches Ok(n) ==> (n > 0 ==> (r matches OutputPoll::Chunk(chunk) && chunk@
            == lossy_utf8(buf@.subrange(0, n as int)))),
        outcome matches Ok(n) ==> (n == 0 ==> r is NotReady),
        outcome is Err ==> r is NotReady,
        !(r is Ended),
        r matches OutputPoll::Chunk(chunk) ==> chunk@.len() > 0,
{
    match outcome {
        Ok(n) => {
            if n == 0 {
                OutputPoll::NotReady
            } else {
                OutputPoll::Chunk(decode_output(slice_subrange(buf, 0, n)))
            }
        },
        Err(_) => OutputPoll::NotReady,
    }
}

/// The stream endpoint of the channel pair: a lazy, finite,
/// non-restartable sequence of output chunks. It owns the readable
/// handle to the PTY master and the child-process handle; each poll
/// first asks whether the child has exited, and once that check
/// succeeds the sequence ends for good, even if unread bytes remain
/// in the PTY buffer.
pub struct PtyStream {
    reader: ReaderHandle,
    child: ChildHandle,
    done: bool,
}

impl PtyStream {
    /// Whether the stream has observed the child's exit and so ended.
    /// Once true, it stays true.
    pub closed spec fn is_terminated(&self) -> bool {
        self.done
    }

    /// A fresh stream around the given handles; the child's exit has
    /// not been observed yet.
    pub(crate) fn new(reader: ReaderHandle, child: ChildHandle) -> (s: PtyStream)
        ensures
            !s.is_terminated(),
    {
        PtyStream { reader, child, done: false }
    }

    /// One poll of the output sequence.
    ///
    /// A terminated stream reports `Ended` at once, without touching
    /// the child or the PTY, and a poll reports `Ended` exactly when
    /// the stream is terminated afterwards — termination is
    /// monotonic, the sequence is never resurrected. Otherwise the
    /// poll queries the child once and lets `child_exit_ends_stream`
    /// decide: a reported exit terminates the stream before any read,
    /// discarding unread bytes. If the stream goes on, one read into
    /// the fixed-size buffer is attempted and `read_outcome_report`
    /// decides the report from its outcome: the chunk holds exactly
    /// this poll's bytes, decoded best-effort (so it is never empty
    /// and decoding never fails), while a zero or failed read means
    /// `NotReady`, never an error and never the end.
    pub fn poll_next(&mut self) -> (r: OutputPoll)
        ensures
            old(self).is_terminated() ==> r is Ended,
            (r is Ended) == final(self).is_terminated(),
            r matches OutputPoll::Chunk(chunk) ==> exists|bytes: Seq<u8>|
                1 <= bytes.len() <= READ_BUFFER_SIZE && chunk@ == lossy_utf8(bytes),
            r matches OutputPoll::Chunk(chunk) ==> chunk@.len() > 0,
    {
        if self.done {
            return OutputPoll::Ended;
        }
        let status = poll_child_exit(&mut self.child);
        if child_exit_ends_stream(status) {
            self.done = true;
            return OutputPoll::Ended;
        }
        let mut buf: Vec<u8> = Vec::new();
        while buf.len() < READ_BUFFER_SIZE
            invariant
                buf@.len() <= READ_BUFFER_SIZE,
            decreases READ_BUFFER_SIZE - buf@.len(),
        {
            buf.push(0u8);
        }
        let outcome = read_bytes(&mut self.reader, &mut buf);
        let r = read_outcome_report(outcome, buf.as_slice());
        proof {
            match &r {
                OutputPoll::Chunk(chunk) => {
                    let n = outcome->Ok_0 as int;
                    assert(chunk@ == lossy_utf8(buf@.subrange(0, n)));
                    assert(1 <= buf@.subrange(0, n).len() <= READ_BUFFER_SIZE);
                },
                _ => {},
            }
        }
        r
    }
}

} // verus!
