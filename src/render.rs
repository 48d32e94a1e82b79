//! One full-screen frame: placeholder rows, a centered banner a third of the
//! way down, and the cursor put back where the editor tracks it.
use vstd::prelude::*;
use vstd::string::*;
use crate::ansi::{AnsiBuffer, csi, decimal, digit_char, digits, erase_line_seq, hide_cursor_seq, home_seq, move_to_seq, show_cursor_seq};
use crate::geometry::Geometry;
use crate::keys::CursorPosition;

verus! {

pub const EDITEUREN_VERSION: &'static str = "11";

/// The banner shown on the row a third of the way down.
pub open spec fn banner() -> Seq<char> {
    "Editeuren editor -- version 11"@
}

/// `n` spaces.
pub open spec fn spaces(n: nat) -> Seq<char> {
    Seq::new(n, |i: int| ' ')
}

/// How many characters of a text of `len` characters fit in `width`.
pub open spec fn shown_len(len: nat, width: nat) -> nat {
    if len > width {
        width
    } else {
        len
    }
}

/// `text` cut to `width` characters and moved right by half the room left.
pub open spec fn centered(text: Seq<char>, width: nat) -> Seq<char> {
    let shown = shown_len(text.len(), width);
    spaces(((width - shown) as nat) / 2) + text.take(shown as int)
}

pub open spec fn crlf() -> Seq<char> {
    seq!['\r', '\n']
}

pub open spec fn placeholder_row() -> Seq<char> {
    seq!['~'] + erase_line_seq()
}

pub open spec fn banner_row(width: nat) -> Seq<char> {
    centered(banner(), width) + erase_line_seq()
}

/// What row `i` shows, without its line ending: the banner on row
/// `height / 3`, a placeholder elsewhere.
pub open spec fn row_line(i: nat, width: nat, height: nat) -> Seq<char> {
    if i == height / 3 {
        banner_row(width)
    } else {
        placeholder_row()
    }
}

/// Rows `1 .. n`, each ended by CR LF.
pub open spec fn rows_before(n: nat, width: nat, height: nat) -> Seq<char>
    decreases n,
{
    if n <= 1 {
        Seq::empty()
    } else {
        rows_before((n - 1) as nat, width, height) + row_line((n - 1) as nat, width, height)
            + crlf()
    }
}

/// The rows of a frame: the ended rows, then a last placeholder with no line
/// ending, so that the view does not scroll.
pub open spec fn body(width: nat, height: nat) -> Seq<char> {
    rows_before(height, width, height) + erase_line_seq() + seq!['~']
}

/// A whole frame: hide the cursor, go home, draw the rows, then put the
/// cursor at its tracked place and show it.
pub open spec fn frame(width: nat, height: nat, cursor: CursorPosition) -> Seq<char> {
    hide_cursor_seq() + home_seq() + body(width, height) + home_seq() + move_to_seq(
        cursor.row as int,
        cursor.column as int,
    ) + show_cursor_seq()
}

/// `text` cut to at most `width` characters and padded on the left with
/// `(width - shown) / 2` spaces; a text wider than `width` keeps exactly
/// `width` characters and gets no padding.
pub fn center_text(text: &str, width: u32) -> (r: String)
    ensures
        r@ == centered(text@, width as nat),
        text@.len() <= width ==> r@ == spaces(((width - text@.len()) as nat) / 2) + text@,
        text@.len() > width ==> r@ == text@.take(width as int),
        text@.len() > width ==> r@.len() == width,
{
    let len = text.unicode_len();
    let shown: usize = if len > width as usize {
        width as usize
    } else {
        len
    };
    let shown_text = text.substring_char(0, shown);
    let pad: usize = (width as usize - shown) / 2;
    let mut r = String::new();
    let mut i: usize = 0;
    while i < pad
        invariant
            i <= pad,
            r@ == spaces(i as nat),
        decreases pad - i,
    {
        proof {
            reveal_strlit(" ");
        }
        r.append(" ");
        i = i + 1;
        assert(r@ =~= spaces(i as nat));
    }
    r.append(shown_text);
    assert(r@ =~= centered(text@, width as nat));
    proof {
        if text@.len() <= width {
            assert(text@.take(text@.len() as int) =~= text@);
        } else {
            assert(spaces(0) =~= Seq::<char>::empty());
            assert(r@ =~= text@.take(width as int));
        }
    }
    r
}

/// Builds the banner text.
pub fn banner_text() -> (r: String)
    ensures
        r@ == banner(),
{
    proof {
        reveal_strlit("Editeuren editor -- version ");
        reveal_strlit("11");
        reveal_strlit("Editeuren editor -- version 11");
    }
    let mut blurb = String::from_str("Editeuren editor -- version ");
    blurb.append(EDITEUREN_VERSION);
    assert(blurb@ =~= banner());
    blurb
}

/// The visible part of the editor: the grid's size and the cursor.
#[derive(Clone, Copy, Debug)]
pub struct Screen {
    pub width: u32,
    pub height: u32,
    pub cursor: CursorPosition,
}

impl Screen {
    /// A screen of the given geometry with the cursor at the top left.
    pub fn new(geometry: Geometry) -> (r: Screen)
        ensures
            r.width == geometry.columns,
            r.height == geometry.rows,
            r.cursor == (CursorPosition { row: 0, column: 0 }),
    {
        Screen {
            width: geometry.columns,
            height: geometry.rows,
            cursor: CursorPosition { row: 0, column: 0 },
        }
    }

    /// Appends the rows of one frame.
    pub fn draw_rows(&self, buffer: &mut AnsiBuffer)
        ensures
            final(buffer)@ == old(buffer)@ + body(self.width as nat, self.height as nat),
    {
        let ghost w = self.width as nat;
        let ghost h = self.height as nat;
        let mut i: u32 = 1;
        while i < self.height
            invariant
                1 <= i,
                i <= self.height || i == 1,
                w == self.width as nat,
                h == self.height as nat,
                buffer@ == old(buffer)@ + rows_before(i as nat, w, h),
            decreases self.height - i,
        {
            let ghost before = buffer@;
            proof {
                reveal_strlit("\r\n");
                reveal_strlit("~");
            }
            if i == self.height / 3 {
                let blurb = banner_text();
                let line = center_text(blurb.as_str(), self.width);
                buffer.append(line.as_str());
                buffer.erase_to_end_of_line();
                buffer.append("\r\n");
            } else {
                buffer.append("~");
                buffer.erase_to_end_of_line();
                buffer.append("\r\n");
            }
            assert(buffer@ =~= before + row_line(i as nat, w, h) + crlf());
            i = i + 1;
            assert(buffer@ =~= old(buffer)@ + rows_before(i as nat, w, h));
        }
        if self.height > 1 {
            assert(i == self.height);
        } else {
            assert(rows_before(h, w, h) == rows_before(i as nat, w, h));
        }
        proof {
            reveal_strlit("~");
        }
        buffer.erase_to_end_of_line();
        buffer.append("~");
        assert(buffer@ =~= old(buffer)@ + body(w, h));
    }

    /// Composes one full frame, to be written to the terminal at once.
    pub fn refresh(&self) -> (r: String)
        ensures
            r@ == frame(self.width as nat, self.height as nat, self.cursor),
    {
        let mut buffer = AnsiBuffer::new();
        buffer.hide_cursor();
        buffer.move_top_left();
        self.draw_rows(&mut buffer);
        buffer.move_top_left();
        buffer.move_cursor_to(self.cursor.row, self.cursor.column);
        buffer.show_cursor();
        let r = buffer.into_string();
        assert(r@ =~= frame(self.width as nat, self.height as nat, self.cursor));
        r
    }
}

/// How many times `c` occurs in `s`.
pub open spec fn count_char(s: Seq<char>, c: char) -> nat
    decreases s.len(),
{
    if s.len() == 0 {
        0
    } else {
        count_char(s.drop_last(), c) + if s.last() == c {
            1nat
        } else {
            0nat
        }
    }
}

proof fn lemma_count_concat(a: Seq<char>, b: Seq<char>, c: char)
    ensures
        count_char(a + b, c) == count_char(a, c) + count_char(b, c),
    decreases b.len(),
{
    if b.len() == 0 {
        assert(a + b =~= a);
    } else {
        assert((a + b).drop_last() =~= a + b.drop_last());
        lemma_count_concat(a, b.drop_last(), c);
    }
}

proof fn lemma_count_absent(s: Seq<char>, c: char)
    requires
        !s.contains(c),
    ensures
        count_char(s, c) == 0,
    decreases s.len(),
{
    if s.len() > 0 {
        assert(!s.drop_last().contains(c)) by {
            if s.drop_last().contains(c) {
                let i = choose|i: int| 0 <= i < s.drop_last().len() && s.drop_last()[i] == c;
                assert(s[i] == c);
            }
        }
        assert(s.last() == s[s.len() - 1]);
        lemma_count_absent(s.drop_last(), c);
    }
}

proof fn lemma_digits_no_newline(n: nat)
    ensures
        !digits(n).contains('\n'),
    decreases n,
{
    if n >= 10 {
        lemma_digits_no_newline(n / 10);
        assert(!(digits(n / 10) + seq![digit_char(n % 10)]).contains('\n')) by {
            let s = digits(n / 10) + seq![digit_char(n % 10)];
            if s.contains('\n') {
                let i = choose|i: int| 0 <= i < s.len() && s[i] == '\n';
                if i < digits(n / 10).len() {
                    assert(digits(n / 10)[i] == '\n');
                }
            }
        }
    }
}

proof fn lemma_row_counts(i: nat, width: nat, height: nat)
    ensures
        count_char(row_line(i, width, height), '\n') == 0,
{
    reveal_strlit("Editeuren editor -- version 11");
    let t = centered(banner(), width);
    assert(!t.contains('\n')) by {
        if t.contains('\n') {
            let k = choose|k: int| 0 <= k < t.len() && t[k] == '\n';
            let pad = spaces(((width - shown_len(banner().len(), width)) as nat) / 2);
            if k >= pad.len() {
                assert(banner()[k - pad.len()] == '\n');
            }
        }
    }
    lemma_count_absent(t, '\n');
    lemma_count_absent(erase_line_seq(), '\n');
    lemma_count_concat(t, erase_line_seq(), '\n');
    lemma_count_absent(seq!['~'], '\n');
    lemma_count_concat(seq!['~'], erase_line_seq(), '\n');
}

proof fn lemma_rows_before_count(n: nat, width: nat, height: nat)
    ensures
        count_char(rows_before(n, width, height), '\n') == if n >= 1 {
            (n - 1) as nat
        } else {
            0
        },
        n > 1 ==> rows_before(n, width, height).last() == '\n',
    decreases n,
{
    if n > 1 {
        let m = (n - 1) as nat;
        lemma_rows_before_count(m, width, height);
        lemma_row_counts(m, width, height);
        let crlf_count = count_char(crlf(), '\n');
        assert(crlf().drop_last() =~= seq!['\r']);
        assert(seq!['\r'].drop_last() =~= Seq::<char>::empty());
        reveal_with_fuel(count_char, 3);
        assert(crlf_count == 1);
        lemma_count_concat(rows_before(m, width, height), row_line(m, width, height), '\n');
        lemma_count_concat(
            rows_before(m, width, height) + row_line(m, width, height),
            crlf(),
            '\n',
        );
    }
}

proof fn lemma_move_to_count(row: int, col: int)
    ensures
        count_char(move_to_seq(row, col), '\n') == 0,
{
    let s = move_to_seq(row, col);
    lemma_digits_no_newline((-(row + 1)) as nat);
    lemma_digits_no_newline((row + 1) as nat);
    lemma_digits_no_newline((-(col + 1)) as nat);
    lemma_digits_no_newline((col + 1) as nat);
    let a = csi();
    let b = decimal(row + 1);
    let c = decimal(col + 1);
    assert(!b.contains('\n')) by {
        if b.contains('\n') {
            let k = choose|k: int| 0 <= k < b.len() && b[k] == '\n';
            if row + 1 < 0 {
                assert(k > 0);
                assert(digits((-(row + 1)) as nat)[k - 1] == '\n');
            } else {
                assert(digits((row + 1) as nat)[k] == '\n');
            }
        }
    }
    assert(!c.contains('\n')) by {
        if c.contains('\n') {
            let k = choose|k: int| 0 <= k < c.len() && c[k] == '\n';
            if col + 1 < 0 {
                assert(k > 0);
                assert(digits((-(col + 1)) as nat)[k - 1] == '\n');
            } else {
                assert(digits((col + 1) as nat)[k] == '\n');
            }
        }
    }
    lemma_count_absent(a, '\n');
    lemma_count_absent(b, '\n');
    lemma_count_absent(c, '\n');
    lemma_count_absent(seq![';'], '\n');
    lemma_count_absent(seq!['H'], '\n');
    lemma_count_concat(a, b, '\n');
    lemma_count_concat(a + b, seq![';'], '\n');
    lemma_count_concat(a + b + seq![';'], c, '\n');
    lemma_count_concat(a + b + seq![';'] + c, seq!['H'], '\n');
}

/// A frame of height `h` is `h` rows: `h - 1` rows ended by a line ending,
/// then one last row with none, so the frame holds exactly `h - 1` newlines
/// and its rows end with a placeholder.
pub proof fn frame_has_height_rows(width: nat, height: nat, cursor: CursorPosition)
    requires
        width > 0,
        height > 0,
    ensures
        count_char(rows_before(height, width, height), '\n') == height - 1,
        height > 1 ==> rows_before(height, width, height).last() == '\n',
        body(width, height) == rows_before(height, width, height) + erase_line_seq() + seq!['~'],
        count_char(erase_line_seq() + seq!['~'], '\n') == 0,
        count_char(body(width, height), '\n') == height - 1,
        count_char(frame(width, height, cursor), '\n') == height - 1,
{
    let r = rows_before(height, width, height);
    lemma_rows_before_count(height, width, height);
    lemma_count_absent(erase_line_seq(), '\n');
    lemma_count_absent(seq!['~'], '\n');
    lemma_count_concat(erase_line_seq(), seq!['~'], '\n');
    lemma_count_concat(r + erase_line_seq(), seq!['~'], '\n');
    lemma_count_concat(r, erase_line_seq(), '\n');
    let b = body(width, height);
    lemma_count_absent(hide_cursor_seq(), '\n');
    lemma_count_absent(home_seq(), '\n');
    lemma_count_absent(show_cursor_seq(), '\n');
    lemma_move_to_count(cursor.row as int, cursor.column as int);
    let m = move_to_seq(cursor.row as int, cursor.column as int);
    lemma_count_concat(hide_cursor_seq(), home_seq(), '\n');
    lemma_count_concat(hide_cursor_seq() + home_seq(), b, '\n');
    lemma_count_concat(hide_cursor_seq() + home_seq() + b, home_seq(), '\n');
    lemma_count_concat(hide_cursor_seq() + home_seq() + b + home_seq(), m, '\n');
    lemma_count_concat(hide_cursor_seq() + home_seq() + b + home_seq() + m, show_cursor_seq(), '\n');
}

} // verus!
