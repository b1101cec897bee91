use vstd::prelude::*;

use crate::errors::ConstructionError;
use crate::handles::clone_reader;
use crate::handles::native_provider;
use crate::handles::open_pair;
use crate::handles::spawn_on_slave;
use crate::handles::take_writer;
use crate::sink::PtySink;
use crate::stream::PtyStream;

verus! {

/// Build the channel pair around a freshly spawned command.
///
/// The platform's PTY provider allocates a pair sized to
/// `default_size`, the command (program only, default arguments) is
/// spawned attached to the subordinate side, and independent readable
/// and writable handles are cloned from the controlling side. On
/// success the sink owns the writable and resize-capable handles and
/// the stream owns the readable and child handles, both fresh: no
/// text accepted yet, the child's exit not observed. Failure at any
/// step aborts the construction with the error naming that step, and
/// no partial channel pair is returned.
pub fn create(command: &str, default_size: portable_pty::PtySize) -> (r: Result<
    (PtySink, PtyStream),
    ConstructionError,
>)
    ensures
        r matches Ok(pair) ==> pair.0.accepted() == Seq::<Seq<u8>>::empty()
            && pair.0.resized() == Seq::<(u16, u16)>::empty() && !pair.1.is_terminated(),
{
    let provider = native_provider();
    let (master, slave) = match open_pair(&provider, default_size) {
        Ok(pair) => pair,
        Err(_) => {
            return Err(ConstructionError::PtyOpen);
        },
    };
    let child = match spawn_on_slave(&slave, command) {
        Ok(child) => child,
        Err(_) => {
            return Err(ConstructionError::Spawn);
        },
    };
    let reader = match clone_reader(&master) {
        Ok(reader) => reader,
        Err(_) => {
            return Err(ConstructionError::CloneReader);
        },
    };
    let writer = match take_writer(&master) {
        Ok(writer) => writer,
        Err(_) => {
            return Err(ConstructionError::TakeWriter);
        },
    };
    let stream = PtyStream::new(reader, child);
    let sink = PtySink::new(writer, master);
    Ok((sink, stream))
}

} // verus!
