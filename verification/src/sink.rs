use vstd::prelude::*;
use vstd::string::StringSliceAdditionalSpecFns;

use crate::errors::InputError;
use crate::events::PtyInput;
use crate::handles::MasterHandle;
use crate::handles::WriterHandle;
use crate::handles::resize_master;
use crate::handles::write_bytes;

verus! {

/// The exact size handed to the PTY's resize call for a
/// `Resize(rows, cols)` event: the requested rows and columns, with
/// pixel dimensions always zero.
pub fn resize_request(rows: u16, cols: u16) -> (size: portable_pty::PtySize)
    ensures
        size.rows == rows,
        size.cols == cols,
        size.pixel_width == 0,
        size.pixel_height == 0,
{
    portable_pty::PtySize { rows, cols, pixel_width: 0, pixel_height: 0 }
}

/// The sink endpoint of the channel pair: accepts input events one at
/// a time and applies each to the PTY at once. It owns the writable
/// handle to the PTY master and the controlling-side handle that
/// carries the resize capability; nothing is buffered, so it is
/// always ready for the next event.
pub struct PtySink {
    writer: WriterHandle,
    master: MasterHandle,
    accepted: Ghost<Seq<Seq<u8>>>,
    resized: Ghost<Seq<(u16, u16)>>,
}

impl PtySink {
    /// The text payloads (as their UTF-8 bytes) accepted so far, in
    /// submission order. Each payload was handed to the PTY's write
    /// handle in a single best-effort attempt when it was accepted.
    pub closed spec fn accepted(&self) -> Seq<Seq<u8>> {
        self.accepted@
    }

    /// The (rows, cols) pairs of the resize events accepted so far,
    /// in submission order. Each pair was handed to the PTY's resize
    /// call, with zero pixel dimensions, when it was accepted.
    pub closed spec fn resized(&self) -> Seq<(u16, u16)> {
        self.resized@
    }

    /// A fresh sink around the given handles; nothing accepted yet.
    pub(crate) fn new(writer: WriterHandle, master: MasterHandle) -> (s: PtySink)
        ensures
            s.accepted() == Seq::<Seq<u8>>::empty(),
            s.resized() == Seq::<(u16, u16)>::empty(),
    {
        PtySink {
            writer,
            master,
            accepted: Ghost(Seq::empty()),
            resized: Ghost(Seq::empty()),
        }
    }

    /// Readiness check: the sink holds no internal buffer and applies
    /// every event synchronously, so it is always immediately ready
    /// for the next event.
    pub fn poll_ready(&self) -> (r: Result<(), InputError>)
        ensures
            r is Ok,
    {
        Ok(())
    }

    /// Submit one input event.
    ///
    /// `Text` writes the payload's bytes to the PTY in a single
    /// best-effort attempt (a partial write is not re-driven) and, on
    /// success, appends the payload to the record of accepted text;
    /// on failure it reports a write error and records nothing.
    /// `Resize` hands the PTY exactly the requested rows and columns
    /// with zero pixel dimensions (see `resize_request`) and, on
    /// success, appends the pair to the record of accepted resizes;
    /// on failure it reports a resize error and records nothing.
    /// Neither kind of event touches the other kind's record, and
    /// either failure is scoped to this one event.
    pub fn start_send(&mut self, item: PtyInput) -> (r: Result<(), InputError>)
        ensures
            match item {
                PtyInput::Text(t) => {
                    &&& r is Ok ==> final(self).accepted() == old(self).accepted().push(
                        t.spec_bytes(),
                    )
                    &&& r is Err ==> r == Err::<(), InputError>(InputError::Write)
                        && final(self).accepted() == old(self).accepted()
                    &&& final(self).resized() == old(self).resized()
                },
                PtyInput::Resize(rows, cols) => {
                    &&& r is Ok ==> final(self).resized() == old(self).resized().push(
                        (rows, cols),
                    )
                    &&& r is Err ==> r == Err::<(), InputError>(InputError::Resize)
                        && final(self).resized() == old(self).resized()
                    &&& final(self).accepted() == old(self).accepted()
                },
            },
    {
        match item {
            PtyInput::Text(data) => {
                let bytes = data.as_bytes();
                match write_bytes(&mut self.writer, bytes) {
                    Ok(_) => {
                        self.accepted = Ghost(self.accepted@.push(bytes@));
                        Ok(())
                    },
                    Err(_) => Err(InputError::Write),
                }
            },
            PtyInput::Resize(rows, cols) => {
                match resize_master(&self.master, resize_request(rows, cols)) {
                    Ok(_) => {
                        self.resized = Ghost(self.resized@.push((rows, cols)));
                        Ok(())
                    },
                    Err(_) => Err(InputError::Resize),
                }
            },
        }
    }

    /// Flush: a no-op that always succeeds, since every write is
    /// applied to the PTY synchronously during submission and nothing
    /// is buffered.
    pub fn poll_flush(&self) -> (r: Result<(), InputError>)
        ensures
            r is Ok,
    {
        Ok(())
    }

    /// Close: a no-op that always succeeds. The adapter owns no
    /// shutdown handshake with the child; its termination is observed
    /// only from the output side.
    pub fn poll_close(&self) -> (r: Result<(), InputError>)
        ensures
            r is Ok,
    {
        Ok(())
    }
}

/// Ordering law: accepting text payload `a` and then text payload `b`
/// extends the record so that `a` stands strictly before `b`, at the
/// positions right after the earlier record. With `start_send`'s
/// contract, which appends each accepted payload, this pins the order
/// in which submitted text reaches the PTY's write handle.
pub proof fn lemma_submission_order(accepted: Seq<Seq<u8>>, a: Seq<u8>, b: Seq<u8>)
    ensures
        accepted.push(a).push(b)[accepted.len() as int] == a,
        accepted.push(a).push(b)[accepted.len() as int + 1] == b,
{
}

} // verus!
