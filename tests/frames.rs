use editeuren::{banner_text, center_text, CursorPosition, Geometry, Screen, EDITEUREN_VERSION};

fn screen(columns: u32, rows: u32) -> Screen {
    Screen::new(Geometry { columns, rows })
}

/// The rows between the frame's leading home and its trailing home.
fn rows_of(frame: &str) -> Vec<String> {
    let start = "\x1b[?25l\x1b[H";
    assert!(frame.starts_with(start));
    let rest = &frame[start.len()..];
    let end = rest.rfind("\x1b[H").unwrap();
    rest[..end].split("\r\n").map(|s| s.to_string()).collect()
}

#[test]
fn banner_names_the_version() {
    assert_eq!(EDITEUREN_VERSION, "11");
    assert_eq!(banner_text(), "Editeuren editor -- version 11");
}

#[test]
fn center_pads_by_half_the_room() {
    assert_eq!(center_text("abc", 10), "   abc");
    assert_eq!(center_text("abc", 4), "abc");
    assert_eq!(center_text("abcd", 4), "abcd");
    assert_eq!(center_text("", 5), "  ");
}

#[test]
fn center_truncates_wide_text() {
    assert_eq!(center_text("abcdef", 4), "abcd");
    assert_eq!(center_text("abcdef", 0), "");
}

#[test]
fn center_counts_characters_not_bytes() {
    assert_eq!(center_text("héllo", 3), "hél");
    assert_eq!(center_text("éé", 6), "  éé");
}

#[test]
fn banner_row_centered_in_80_columns() {
    let f = screen(80, 24).refresh();
    let rows = rows_of(&f);
    let expected = format!("{}Editeuren editor -- version 11\x1b[K", " ".repeat(25));
    assert_eq!(rows[7], expected);
}

#[test]
fn banner_truncated_in_narrow_screen() {
    let f = screen(10, 9).refresh();
    let rows = rows_of(&f);
    assert_eq!(rows[2], "Editeuren \x1b[K");
}

#[test]
fn frame_has_height_rows() {
    for (w, h) in [(80u32, 24u32), (1, 1), (5, 2), (3, 3), (40, 7)] {
        let f = screen(w, h).refresh();
        assert_eq!(f.matches('\n').count(), (h - 1) as usize);
        assert_eq!(f.matches("\r\n").count(), (h - 1) as usize);
        let rows = rows_of(&f);
        assert_eq!(rows.len(), h as usize);
        assert_eq!(rows[rows.len() - 1], "\x1b[K~");
    }
}

#[test]
fn one_row_screen_has_no_line_ending() {
    let f = screen(80, 1).refresh();
    assert_eq!(f, "\x1b[?25l\x1b[H\x1b[K~\x1b[H\x1b[1;1H\x1b[?25h");
}

#[test]
fn small_screen_exact_frame() {
    let f = screen(4, 2).refresh();
    assert_eq!(f, "\x1b[?25l\x1b[H~\x1b[K\r\n\x1b[K~\x1b[H\x1b[1;1H\x1b[?25h");
}

#[test]
fn frame_places_tracked_cursor() {
    let mut s = screen(80, 24);
    s.cursor = CursorPosition { row: 3, column: 10 };
    let f = s.refresh();
    assert!(f.ends_with("\x1b[H\x1b[4;11H\x1b[?25h"));
}

#[test]
fn placeholder_rows_elsewhere() {
    let f = screen(80, 24).refresh();
    let rows = rows_of(&f);
    for (i, r) in rows.iter().enumerate().take(23) {
        if i != 7 {
            assert_eq!(r, "~\x1b[K", "row {}", i + 1);
        }
    }
}
