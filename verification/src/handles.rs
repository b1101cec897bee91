use vstd::prelude::*;

verus! {

/// The size of the visible display area of a PTY, as the PTY provider
/// understands it (`portable_pty::PtySize`): rows, columns and pixel
/// dimensions, all unsigned 16-bit.
#[verifier::external_type_specification]
pub struct ExPtySize(portable_pty::PtySize);

/// The platform's PTY provider (`portable_pty::PtySystem`): it can
/// allocate master/slave PTY pairs. Opaque to verification.
#[verifier::external_body]
pub struct PtyProvider {
    inner: Box<dyn portable_pty::PtySystem + Send>,
}

/// The controlling (master) side of an allocated PTY
/// (`portable_pty::MasterPty`): the side that can clone reader and
/// writer handles and resize the terminal. Opaque to verification.
#[verifier::external_body]
pub struct MasterHandle {
    inner: Box<dyn portable_pty::MasterPty + Send>,
}

/// The subordinate (slave) side of an allocated PTY
/// (`portable_pty::SlavePty`): the side a command is spawned onto.
/// Opaque to verification.
#[verifier::external_body]
pub struct SlaveHandle {
    inner: Box<dyn portable_pty::SlavePty + Send>,
}

/// A writable byte-sink handle to the PTY master: bytes written here
/// reach the child's standard input. Opaque to verification.
#[verifier::external_body]
pub struct WriterHandle {
    inner: Box<dyn std::io::Write + Send>,
}

/// A readable byte-source handle to the PTY master: the child's
/// output is read from here. Opaque to verification.
#[verifier::external_body]
pub struct ReaderHandle {
    inner: Box<dyn std::io::Read + Send>,
}

/// A handle to the spawned child process (`portable_pty::Child`),
/// supporting a non-blocking "has it exited" query. Opaque to
/// verification.
#[verifier::external_body]
pub struct ChildHandle {
    inner: Box<dyn portable_pty::Child + Send + Sync>,
}

/// What one non-blocking child-liveness query reported.
pub enum ChildStatusPoll {
    /// The child process has exited.
    Exited,
    /// The child process is still running.
    Running,
    /// The query itself failed, so nothing is known.
    Unknown,
}

/// Relies on portable_pty::native_pty_system: returns the platform's
/// native PTY provider. Nothing is claimed of the fresh provider.
#[verifier::external_body]
pub(crate) fn native_provider() -> PtyProvider {
    PtyProvider { inner: portable_pty::native_pty_system() }
}

/// Relies on portable_pty::PtySystem::openpty: allocates a PTY pair
/// of the given size and hands back its master and slave sides, or
/// fails. Whether it succeeds depends on the operating system.
#[verifier::external_body]
pub(crate) fn open_pair(
    provider: &PtyProvider,
    size: portable_pty::PtySize,
) -> Result<(MasterHandle, SlaveHandle), ()> {
    match provider.inner.openpty(size) {
        Ok(pair) => Ok((
            MasterHandle { inner: pair.master },
            SlaveHandle { inner: pair.slave },
        )),
        Err(_) => Err(()),
    }
}

/// Relies on portable_pty::SlavePty::spawn_command, with the spawn
/// specification built by portable_pty::CommandBuilder::new: launches
/// `command` (program only, no arguments) attached to the slave side
/// and returns the child-process handle, or fails (for example, the
/// program does not exist).
#[verifier::external_body]
pub(crate) fn spawn_on_slave(slave: &SlaveHandle, command: &str) -> Result<ChildHandle, ()> {
    match slave.inner.spawn_command(portable_pty::CommandBuilder::new(command)) {
        Ok(child) => Ok(ChildHandle { inner: child }),
        Err(_) => Err(()),
    }
}

/// Relies on portable_pty::MasterPty::try_clone_reader: clones an
/// independent readable handle from the master side, or fails.
#[verifier::external_body]
pub(crate) fn clone_reader(master: &MasterHandle) -> Result<ReaderHandle, ()> {
    match master.inner.try_clone_reader() {
        Ok(reader) => Ok(ReaderHandle { inner: reader }),
        Err(_) => Err(()),
    }
}

/// Relies on portable_pty::MasterPty::take_writer: takes the writable
/// handle of the master side. The provider hands it out at most once
/// per PTY, so a second take fails.
#[verifier::external_body]
pub(crate) fn take_writer(master: &MasterHandle) -> Result<WriterHandle, ()> {
    match master.inner.take_writer() {
        Ok(writer) => Ok(WriterHandle { inner: writer }),
        Err(_) => Err(()),
    }
}

/// Relies on portable_pty::MasterPty::resize: asks the kernel to
/// resize the PTY to the given size and to signal the child, or
/// fails. Whether it succeeds depends on the state of the PTY.
#[verifier::external_body]
pub(crate) fn resize_master(
    master: &MasterHandle,
    size: portable_pty::PtySize,
) -> Result<(), ()> {
    match master.inner.resize(size) {
        Ok(()) => Ok(()),
        Err(_) => Err(()),
    }
}

/// Relies on std::io::Write::write: a single best-effort attempt; on
/// success it reports how many bytes of `data` were accepted, which
/// its documentation bounds by `data.len()`. Whether and how much is
/// written depends on the PTY's state.
#[verifier::external_body]
pub(crate) fn write_bytes(writer: &mut WriterHandle, data: &[u8]) -> (r: Result<usize, ()>)
    ensures
        r matches Ok(n) ==> n <= data@.len(),
{
    match writer.inner.write(data) {
        Ok(n) => Ok(n),
        Err(_) => Err(()),
    }
}

/// Relies on std::io::Read::read: on success it fills a prefix of
/// `buf` and reports its length, which its documentation bounds by
/// `buf.len()`; the buffer keeps its length either way. What arrives
/// depends on the child and the PTY, so nothing is claimed of the
/// bytes themselves.
#[verifier::external_body]
pub(crate) fn read_bytes(reader: &mut ReaderHandle, buf: &mut Vec<u8>) -> (r: Result<usize, ()>)
    ensures
        final(buf)@.len() == old(buf)@.len(),
        r matches Ok(n) ==> n <= final(buf)@.len(),
{
    match reader.inner.read(buf.as_mut_slice()) {
        Ok(n) => Ok(n),
        Err(_) => Err(()),
    }
}

/// Relies on portable_pty::Child::try_wait: a non-blocking liveness
/// query; a reported exit status means the child has exited, `None`
/// that it is still running, and a query error reports nothing.
#[verifier::external_body]
pub(crate) fn poll_child_exit(child: &mut ChildHandle) -> ChildStatusPoll {
    match child.inner.try_wait() {
        Ok(Some(_)) => ChildStatusPoll::Exited,
        Ok(None) => ChildStatusPoll::Running,
        Err(_) => ChildStatusPoll::Unknown,
    }
}

} // verus!
