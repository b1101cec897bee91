use vstd::prelude::*;

verus! {

/// Why a submitted input event failed. The failure is scoped to the
/// one event that raised it: the sink is not poisoned and may accept
/// further events.
#[derive(Clone, Copy, Debug, PartialEq, Eq, Structural)]
pub enum InputError {
    /// The byte write to the PTY failed (for example, a broken pipe
    /// because the child has exited).
    Write,
    /// The terminal-resize call on the PTY failed (for example, the
    /// PTY is already closed).
    Resize,
}

/// Why construction of the channel pair failed. Failure at any step
/// aborts construction: no partial channel pair is ever returned.
#[derive(Clone, Copy, Debug, PartialEq, Eq, Structural)]
pub enum ConstructionError {
    /// Allocating the PTY pair failed.
    PtyOpen,
    /// Spawning the command attached to the PTY's subordinate side
    /// failed.
    Spawn,
    /// Cloning the readable handle from the PTY's controlling side
    /// failed.
    CloneReader,
    /// Taking the writable handle of the PTY's controlling side
    /// failed.
    TakeWriter,
}

} // verus!
