//! Keys as the keyboard delivers them, one byte each, and what they do to
//! the cursor.
use vstd::prelude::*;

verus! {

/// The letter whose control form ends the session.
pub const QUIT_LETTER: char = 'q';

/// The control code of a letter: its low five bits.
pub open spec fn ctrl_of(c: char) -> u32 {
    (c as u32) & 0x1f
}

/// The control character that holding Ctrl with `c` produces.
pub fn ctrl_key(c: char) -> (r: char)
    ensures
        r as u32 == ctrl_of(c),
{
    let cu: u32 = c as u32;
    let code: u32 = cu & 0x1f;
    assert(code < 32) by (bit_vector)
        requires
            code == cu & 0x1f,
    ;
    (code as u8) as char
}

/// Whether `key` ends the session.
pub open spec fn is_quit(key: char) -> bool {
    key as u32 == ctrl_of(QUIT_LETTER)
}

pub fn is_quit_key(key: char) -> (r: bool)
    ensures
        r == is_quit(key),
{
    key == ctrl_key(QUIT_LETTER)
}

/// A key read from the terminal: one byte, taken as the character of the
/// same number.
pub fn key_from_byte(b: u8) -> (r: char)
    ensures
        r as u32 == b as u32,
{
    b as char
}

/// Row and column change for each navigation key: `w` up, `s` down, `a`
/// left, `d` right; any other key moves nothing.
pub open spec fn key_delta(key: char) -> (int, int) {
    if key == 'w' {
        (-1, 0)
    } else if key == 's' {
        (1, 0)
    } else if key == 'a' {
        (0, -1)
    } else if key == 'd' {
        (0, 1)
    } else {
        (0, 0)
    }
}

pub open spec fn is_navigation(key: char) -> bool {
    key == 'w' || key == 's' || key == 'a' || key == 'd'
}

/// Logical grid coordinates of the cursor, 0-based. They are not held
/// inside the grid; they only stop at the limits of `i32`.
#[derive(Clone, Copy, Debug, PartialEq, Eq, Structural)]
pub struct CursorPosition {
    pub row: i32,
    pub column: i32,
}

/// `v + d`, held within `i32`.
pub open spec fn bounded_add(v: int, d: int) -> int {
    if v + d < i32::MIN {
        i32::MIN as int
    } else if v + d > i32::MAX {
        i32::MAX as int
    } else {
        v + d
    }
}

fn saturating_step(v: i32, d: i32) -> (r: i32)
    requires
        -1 <= d <= 1,
    ensures
        r == bounded_add(v as int, d as int),
{
    if d > 0 && v == i32::MAX {
        v
    } else if d < 0 && v == i32::MIN {
        v
    } else {
        v + d
    }
}

impl CursorPosition {
    pub open spec fn moved_by(self, dr: int, dc: int) -> CursorPosition {
        CursorPosition {
            row: bounded_add(self.row as int, dr) as i32,
            column: bounded_add(self.column as int, dc) as i32,
        }
    }

    /// Moves by at most one step on each axis.
    pub fn update_cursor_location(&mut self, row_delta: i32, col_delta: i32)
        requires
            -1 <= row_delta <= 1,
            -1 <= col_delta <= 1,
        ensures
            *final(self) == old(self).moved_by(row_delta as int, col_delta as int),
    {
        self.row = saturating_step(self.row, row_delta);
        self.column = saturating_step(self.column, col_delta);
    }

    /// Applies a navigation key; other keys leave the position as it is.
    pub fn handle_navigation(&mut self, key: char)
        ensures
            *final(self) == old(self).moved_by(key_delta(key).0, key_delta(key).1),
    {
        if key == 'w' {
            self.update_cursor_location(-1, 0);
        } else if key == 's' {
            self.update_cursor_location(1, 0);
        } else if key == 'a' {
            self.update_cursor_location(0, -1);
        } else if key == 'd' {
            self.update_cursor_location(0, 1);
        }
    }
}

/// A navigation key moves the cursor by exactly one on one axis and leaves
/// the other axis alone, unless that step would leave the range of `i32`;
/// every other key leaves the cursor where it is.
pub proof fn navigation_moves_one_axis(p: CursorPosition, key: char)
    ensures
        key == 'w' && p.row > i32::MIN ==> p.moved_by(key_delta(key).0, key_delta(key).1)
            == (CursorPosition { row: (p.row - 1) as i32, column: p.column }),
        key == 's' && p.row < i32::MAX ==> p.moved_by(key_delta(key).0, key_delta(key).1)
            == (CursorPosition { row: (p.row + 1) as i32, column: p.column }),
        key == 'a' && p.column > i32::MIN ==> p.moved_by(key_delta(key).0, key_delta(key).1)
            == (CursorPosition { row: p.row, column: (p.column - 1) as i32 }),
        key == 'd' && p.column < i32::MAX ==> p.moved_by(key_delta(key).0, key_delta(key).1)
            == (CursorPosition { row: p.row, column: (p.column + 1) as i32 }),
        !is_navigation(key) ==> p.moved_by(key_delta(key).0, key_delta(key).1) == p,
{
}

/// The quit key is the control form of the quit letter and of nothing
/// else among the bytes a key can be: `Ctrl-q` is `0x11`, while the letter
/// itself, and its upper case, are ordinary keys.
pub proof fn quit_key_is_ctrl_q(key: char)
    ensures
        is_quit(key) <==> key as u32 == 0x11,
        !is_quit('q'),
        !is_quit('Q'),
{
    let q: u32 = 'q' as u32;
    assert(q == 113);
    assert(q & 0x1f == 0x11) by (bit_vector)
        requires
            q == 113,
    ;
}

} // verus!
