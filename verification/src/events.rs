use vstd::prelude::*;

verus! {

/// One discrete input event for the PTY.
pub enum PtyInput<'a> {
    /// Raw text whose bytes are written to the child's standard input
    /// through the PTY.
    Text(&'a str),
    /// A request to resize the terminal to the given number of rows
    /// and columns; pixel dimensions are always zero.
    Resize(u16, u16),
}

} // verus!
