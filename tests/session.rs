use editeuren::{Action, CursorPosition, Editor, Event, Geometry, Phase, TermError};

const SAVED: [u8; 4] = [9, 8, 7, 6];

fn editor() -> Editor<Vec<u8>> {
    Editor::new(Geometry { columns: 80, rows: 24 }, SAVED.to_vec())
}

fn written(a: Action<Vec<u8>>) -> String {
    match a {
        Action::Write(s) => s,
        other => panic!("expected a write, got {:?}", other),
    }
}

#[test]
fn starts_running_at_origin() {
    let e = editor();
    assert_eq!(e.phase, Phase::Running);
    assert_eq!(e.screen.cursor, CursorPosition { row: 0, column: 0 });
    assert_eq!(e.saved, Some(SAVED.to_vec()));
}

#[test]
fn written_frame_then_read() {
    let mut e = editor();
    assert!(matches!(e.step(Event::Done), Action::ReadKey));
    assert!(matches!(e.step(Event::NoInput), Action::ReadKey));
    assert_eq!(e.phase, Phase::Running);
}

#[test]
fn end_to_end_80_by_24() {
    let mut e = editor();
    let first = e.refresh();
    assert_eq!(first.matches("\r\n").count(), 23);
    assert!(first.contains("Editeuren editor -- version 11"));

    let mut restores = 0;
    let mut clears = 0;
    let after_d = written(e.step(Event::KeyRead(b'd')));
    assert!(after_d.starts_with("\x1b[?25l"));
    assert!(matches!(e.step(Event::Done), Action::ReadKey));
    let after_s = written(e.step(Event::KeyRead(b's')));
    assert!(after_s.ends_with("\x1b[2;2H\x1b[?25h"));
    assert_eq!(e.screen.cursor, CursorPosition { row: 1, column: 1 });
    assert!(matches!(e.step(Event::Done), Action::ReadKey));

    let mut action = e.step(Event::KeyRead(0x11));
    loop {
        match action {
            Action::Restore(a) => {
                restores += 1;
                assert_eq!(a, SAVED.to_vec());
                action = e.step(Event::Done);
            }
            Action::Write(s) => {
                if s.contains("\x1b[2J") {
                    clears += 1;
                    assert_eq!(s, "\x1b[2J\x1b[H");
                }
                action = e.step(Event::Done);
            }
            Action::ReadKey => panic!("no read after quit"),
            Action::Finish(r) => {
                assert_eq!(r, Ok(()));
                break;
            }
        }
    }
    assert_eq!((restores, clears), (1, 1));
    assert_eq!(e.phase, Phase::Finished);
    assert_eq!(e.saved, None);
}

#[test]
fn other_keys_are_echoed_before_the_frame() {
    let mut e = editor();
    let out = written(e.step(Event::KeyRead(b'x')));
    assert_eq!(out, format!("x{}", e.refresh()));
    assert_eq!(e.screen.cursor, CursorPosition { row: 0, column: 0 });
}

#[test]
fn navigation_keys_are_not_echoed() {
    let mut e = editor();
    let out = written(e.step(Event::KeyRead(b'w')));
    assert_eq!(out, e.refresh());
    assert_eq!(e.screen.cursor, CursorPosition { row: -1, column: 0 });
}

#[test]
fn plain_q_does_not_quit() {
    let mut e = editor();
    let out = written(e.step(Event::KeyRead(b'q')));
    assert!(out.starts_with('q'));
    assert_eq!(e.phase, Phase::Running);
}

#[test]
fn read_failure_still_restores() {
    let mut e = editor();
    match e.step(Event::Failed(5)) {
        Action::Restore(a) => assert_eq!(a, SAVED.to_vec()),
        other => panic!("expected restore, got {:?}", other),
    }
    assert_eq!(written(e.step(Event::Done)), "\x1b[2J\x1b[H");
    match e.step(Event::Done) {
        Action::Finish(r) => assert_eq!(r, Err(TermError::FatalIo(5))),
        other => panic!("expected finish, got {:?}", other),
    }
}

#[test]
fn failed_restore_ends_with_apply_error() {
    let mut e = editor();
    assert!(matches!(e.step(Event::KeyRead(0x11)), Action::Restore(_)));
    match e.step(Event::Failed(13)) {
        Action::Finish(r) => assert_eq!(r, Err(TermError::TerminalApply(13))),
        other => panic!("expected finish, got {:?}", other),
    }
    assert_eq!(e.phase, Phase::Finished);
}

#[test]
fn failed_clear_is_reported() {
    let mut e = editor();
    assert!(matches!(e.step(Event::KeyRead(0x11)), Action::Restore(_)));
    let _ = written(e.step(Event::Done));
    match e.step(Event::Failed(32)) {
        Action::Finish(r) => assert_eq!(r, Err(TermError::FatalIo(32))),
        other => panic!("expected finish, got {:?}", other),
    }
}

#[test]
fn finished_session_never_restores_again() {
    let mut e = editor();
    assert!(matches!(e.step(Event::KeyRead(0x11)), Action::Restore(_)));
    let _ = written(e.step(Event::Done));
    assert!(matches!(e.step(Event::Done), Action::Finish(Ok(()))));
    for ev in [Event::Done, Event::KeyRead(0x11), Event::Failed(1), Event::NoInput] {
        assert!(matches!(e.step(ev), Action::Finish(Ok(()))));
    }
}
