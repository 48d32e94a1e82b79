//! The terminal's character grid, as reported by the window size query.
use vstd::prelude::*;
use crate::error::TermError;

verus! {

/// Columns and rows of the visible grid; both are positive.
#[derive(Clone, Copy, Debug, PartialEq, Eq, Structural)]
pub struct Geometry {
    pub columns: u32,
    pub rows: u32,
}

impl Geometry {
    pub open spec fn wf(&self) -> bool {
        self.columns > 0 && self.rows > 0
    }
}

/// The window size record that the terminal fills in, rows first.
#[derive(Clone, Copy, Debug, PartialEq, Eq, Structural)]
pub struct Winsize {
    pub ws_row: u16,
    pub ws_col: u16,
    pub ws_xpixel: u16,
    pub ws_ypixel: u16,
}

impl Winsize {
    /// Reads the grid out of the query's answer. `status` is what the query
    /// returned and `os_error` the error code that came with a failure.
    /// The record is rows first; the geometry is columns first.
    pub fn get(&self, status: i32, os_error: i32) -> (r: Result<Geometry, TermError>)
        ensures
            status != 0 ==> r == Err::<Geometry, TermError>(TermError::GeometryUnavailable(os_error)),
            status == 0 && (self.ws_row == 0 || self.ws_col == 0) ==> r == Err::<Geometry, TermError>(
                TermError::GeometryUnavailable(0),
            ),
            status == 0 && self.ws_row > 0 && self.ws_col > 0 ==> r == Ok::<Geometry, TermError>(
                (Geometry { columns: self.ws_col as u32, rows: self.ws_row as u32 }),
            ),
            r matches Ok(g) ==> g.wf(),
    {
        if status != 0 {
            Err(TermError::GeometryUnavailable(os_error))
        } else if self.ws_row == 0 || self.ws_col == 0 {
            Err(TermError::GeometryUnavailable(0))
        } else {
            Ok(Geometry { columns: self.ws_col as u32, rows: self.ws_row as u32 })
        }
    }
}

} // verus!
