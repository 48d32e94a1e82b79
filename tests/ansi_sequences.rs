use editeuren::ansi::AnsiBuffer;

fn built(f: impl Fn(&mut AnsiBuffer)) -> String {
    let mut b = AnsiBuffer::new();
    f(&mut b);
    b.into_string()
}

#[test]
fn empty_buffer_is_empty() {
    assert_eq!(AnsiBuffer::new().into_string(), "");
}

#[test]
fn fixed_sequences() {
    assert_eq!(built(|b| b.clear_screen()), "\x1b[2J");
    assert_eq!(built(|b| b.erase_to_end_of_line()), "\x1b[K");
    assert_eq!(built(|b| b.move_top_left()), "\x1b[H");
    assert_eq!(built(|b| b.show_cursor()), "\x1b[?25h");
    assert_eq!(built(|b| b.hide_cursor()), "\x1b[?25l");
}

#[test]
fn append_keeps_order() {
    let s = built(|b| {
        b.append("ab");
        b.clear_screen();
        b.append("~");
    });
    assert_eq!(s, "ab\x1b[2J~");
}

#[test]
fn move_cursor_is_one_based() {
    assert_eq!(built(|b| b.move_cursor_to(0, 0)), "\x1b[1;1H");
    assert_eq!(built(|b| b.move_cursor_to(4, 19)), "\x1b[5;20H");
    assert_eq!(built(|b| b.move_cursor_to(9, 99)), "\x1b[10;100H");
}

#[test]
fn move_cursor_negative_and_extreme() {
    assert_eq!(built(|b| b.move_cursor_to(-1, -6)), "\x1b[0;-5H");
    assert_eq!(built(|b| b.move_cursor_to(i32::MAX, i32::MIN)), "\x1b[2147483648;-2147483647H");
}
