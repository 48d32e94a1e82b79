//! The ways a terminal session can fail, each with the operating system's
//! error code where it gave one.
use vstd::prelude::*;

verus! {

#[derive(Clone, Copy, Debug, PartialEq, Eq, Structural)]
pub enum TermError {
    /// The terminal's attributes could not be read (not a terminal).
    TerminalQuery(i32),
    /// A change of terminal mode, or its restoration, was rejected.
    TerminalApply(i32),
    /// The window size query failed or reported an empty grid.
    GeometryUnavailable(i32),
    /// Reading a key or writing a frame failed.
    FatalIo(i32),
}

} // verus!
