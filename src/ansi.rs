//! An append-only buffer of terminal control sequences and text, emitted as
//! one write so that a frame never reaches the terminal in pieces.
use vstd::prelude::*;
use vstd::string::*;

verus! {

/// The control sequence introducer, `ESC [`.
pub open spec fn csi() -> Seq<char> {
    seq!['\x1b', '[']
}

pub open spec fn clear_screen_seq() -> Seq<char> {
    csi() + seq!['2', 'J']
}

pub open spec fn erase_line_seq() -> Seq<char> {
    csi() + seq!['K']
}

pub open spec fn home_seq() -> Seq<char> {
    csi() + seq!['H']
}

pub open spec fn show_cursor_seq() -> Seq<char> {
    csi() + seq!['?', '2', '5', 'h']
}

pub open spec fn hide_cursor_seq() -> Seq<char> {
    csi() + seq!['?', '2', '5', 'l']
}

/// The character of a decimal digit.
pub open spec fn digit_char(d: nat) -> char
    recommends
        d < 10,
{
    seq!['0', '1', '2', '3', '4', '5', '6', '7', '8', '9'][d as int]
}

/// The decimal digits of a natural number, most significant first.
pub open spec fn digits(n: nat) -> Seq<char>
    decreases n,
{
    if n < 10 {
        seq![digit_char(n)]
    } else {
        digits(n / 10) + seq![digit_char(n % 10)]
    }
}

/// The decimal form of an integer, with a leading `-` when negative.
pub open spec fn decimal(n: int) -> Seq<char> {
    if n < 0 {
        seq!['-'] + digits((-n) as nat)
    } else {
        digits(n as nat)
    }
}

/// Cursor positioning to a 0-based row and column: the sequence carries them
/// 1-based.
pub open spec fn move_to_seq(row: int, col: int) -> Seq<char> {
    csi() + decimal(row + 1) + seq![';'] + decimal(col + 1) + seq!['H']
}

fn digit_str(d: u64) -> (r: &'static str)
    requires
        d < 10,
    ensures
        r@ == seq![digit_char(d as nat)],
{
    proof {
        reveal_strlit("0");
        reveal_strlit("1");
        reveal_strlit("2");
        reveal_strlit("3");
        reveal_strlit("4");
        reveal_strlit("5");
        reveal_strlit("6");
        reveal_strlit("7");
        reveal_strlit("8");
        reveal_strlit("9");
    }
    match d {
        0 => "0",
        1 => "1",
        2 => "2",
        3 => "3",
        4 => "4",
        5 => "5",
        6 => "6",
        7 => "7",
        8 => "8",
        _ => "9",
    }
}

fn push_digits(s: &mut String, n: u64)
    ensures
        final(s)@ == old(s)@ + digits(n as nat),
    decreases n,
{
    if n >= 10 {
        push_digits(s, n / 10);
    }
    s.append(digit_str(n % 10));
    assert(final(s)@ =~= old(s)@ + digits(n as nat));
}

fn push_decimal(s: &mut String, n: i64)
    requires
        n > i64::MIN,
    ensures
        final(s)@ == old(s)@ + decimal(n as int),
{
    if n < 0 {
        proof {
            reveal_strlit("-");
        }
        s.append("-");
        push_digits(s, (-n) as u64);
        assert(final(s)@ =~= old(s)@ + decimal(n as int));
    } else {
        push_digits(s, n as u64);
    }
}

/// Text and control sequences of one frame, in the order appended.
pub struct AnsiBuffer {
    buffer: String,
}

impl View for AnsiBuffer {
    type V = Seq<char>;

    closed spec fn view(&self) -> Seq<char> {
        self.buffer@
    }
}

impl AnsiBuffer {
    pub fn new() -> (r: Self)
        ensures
            r@ == Seq::<char>::empty(),
    {
        AnsiBuffer { buffer: String::new() }
    }

    /// Appends `text` verbatim.
    pub fn append(&mut self, text: &str)
        ensures
            final(self)@ == old(self)@ + text@,
    {
        self.buffer.append(text);
    }

    pub fn clear_screen(&mut self)
        ensures
            final(self)@ == old(self)@ + clear_screen_seq(),
    {
        proof {
            reveal_strlit("\x1b[2J");
        }
        self.buffer.append("\x1b[2J");
        assert(self.buffer@ =~= old(self)@ + clear_screen_seq());
    }

    pub fn erase_to_end_of_line(&mut self)
        ensures
            final(self)@ == old(self)@ + erase_line_seq(),
    {
        proof {
            reveal_strlit("\x1b[K");
        }
        self.buffer.append("\x1b[K");
        assert(self.buffer@ =~= old(self)@ + erase_line_seq());
    }

    pub fn move_top_left(&mut self)
        ensures
            final(self)@ == old(self)@ + home_seq(),
    {
        proof {
            reveal_strlit("\x1b[H");
        }
        self.buffer.append("\x1b[H");
        assert(self.buffer@ =~= old(self)@ + home_seq());
    }

    pub fn show_cursor(&mut self)
        ensures
            final(self)@ == old(self)@ + show_cursor_seq(),
    {
        proof {
            reveal_strlit("\x1b[?25h");
        }
        self.buffer.append("\x1b[?25h");
        assert(self.buffer@ =~= old(self)@ + show_cursor_seq());
    }

    pub fn hide_cursor(&mut self)
        ensures
            final(self)@ == old(self)@ + hide_cursor_seq(),
    {
        proof {
            reveal_strlit("\x1b[?25l");
        }
        self.buffer.append("\x1b[?25l");
        assert(self.buffer@ =~= old(self)@ + hide_cursor_seq());
    }

    /// Appends the sequence that puts the cursor on the 0-based `row` and
    /// `col`.
    pub fn move_cursor_to(&mut self, row: i32, col: i32)
        ensures
            final(self)@ == old(self)@ + move_to_seq(row as int, col as int),
    {
        proof {
            reveal_strlit("\x1b[");
            reveal_strlit(";");
            reveal_strlit("H");
        }
        self.buffer.append("\x1b[");
        push_decimal(&mut self.buffer, row as i64 + 1);
        self.buffer.append(";");
        push_decimal(&mut self.buffer, col as i64 + 1);
        self.buffer.append("H");
        assert(self.buffer@ =~= old(self)@ + move_to_seq(row as int, col as int));
    }

    /// The accumulated frame, handed over for a single write.
    pub fn into_string(self) -> (r: String)
        ensures
            r@ == self@,
    {
        self.buffer
    }
}

} // verus!
