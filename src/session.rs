//! The editing session as a state machine. The caller performs each action
//! it hands out (write a frame, read a key, restore the terminal) and hands
//! back what happened; the session decides what comes next. Whatever path
//! leads out of the running state, the saved terminal attributes are handed
//! back for restoration exactly once, unchanged.
use vstd::prelude::*;
use crate::ansi::{clear_screen_seq, home_seq, AnsiBuffer};
use crate::error::TermError;
use crate::geometry::Geometry;
use crate::keys::{is_quit, is_quit_key, key_delta, key_from_byte, CursorPosition};
use crate::render::{frame, Screen};

verus! {

#[derive(Clone, Copy, Debug, PartialEq, Eq, Structural)]
pub enum Phase {
    /// Drawing frames and reading keys.
    Running,
    /// The saved attributes were handed out for restoration.
    Restoring,
    /// The terminal was restored; the screen is being cleared.
    Clearing,
    /// Nothing is left to do.
    Finished,
}

/// What came of the last action.
#[derive(Clone, Copy, Debug, PartialEq, Eq, Structural)]
pub enum Event {
    /// The write or the restoration succeeded.
    Done,
    /// The action failed with this operating system error code.
    Failed(i32),
    /// A read returned this byte.
    KeyRead(u8),
    /// A read timed out with no byte.
    NoInput,
}

/// What the caller is to do next.
#[derive(Debug)]
pub enum Action<A> {
    /// Write this text to the terminal in one write, and flush.
    Write(String),
    /// Read one byte from the keyboard, with the raw-mode timeout.
    ReadKey,
    /// Apply these terminal attributes again, flushing pending input.
    Restore(A),
    /// The session is over, with this result.
    Finish(Result<(), TermError>),
}

/// Relies on std's `String::push`: appends one character.
#[verifier::external_body]
fn push_char(s: &mut String, c: char)
    ensures
        final(s)@ == old(s)@.push(c),
{
    s.push(c)
}

/// An editor session holding the terminal attributes to restore at the end.
pub struct Editor<A> {
    pub screen: Screen,
    /// The attributes captured before raw mode; present while running.
    pub saved: Option<A>,
    pub phase: Phase,
    /// The first failure met so far.
    pub outcome: Result<(), TermError>,
}

/// What a key that is neither the quit key nor a navigation key writes
/// before the next frame.
pub open spec fn echo_of(key: char) -> Seq<char> {
    if key == 'w' || key == 's' || key == 'a' || key == 'd' {
        Seq::empty()
    } else {
        seq![key]
    }
}

impl<A> Editor<A> {
    pub open spec fn wf(&self) -> bool {
        (self.phase == Phase::Running) == self.saved.is_some()
    }

    /// The state after `event`.
    pub open spec fn next(self, event: Event) -> Editor<A> {
        match self.phase {
            Phase::Running => match event {
                Event::KeyRead(b) => if is_quit(b as char) {
                    Editor { phase: Phase::Restoring, saved: None, ..self }
                } else {
                    let d = key_delta(b as char);
                    Editor {
                        screen: Screen { cursor: self.screen.cursor.moved_by(d.0, d.1), ..self.screen },
                        ..self
                    }
                },
                Event::Failed(e) => Editor {
                    phase: Phase::Restoring,
                    saved: None,
                    outcome: Err(TermError::FatalIo(e)),
                    ..self
                },
                _ => self,
            },
            Phase::Restoring => match event {
                Event::Failed(e) => Editor {
                    phase: Phase::Finished,
                    outcome: Err(TermError::TerminalApply(e)),
                    ..self
                },
                _ => Editor { phase: Phase::Clearing, ..self },
            },
            Phase::Clearing => match event {
                Event::Failed(e) => Editor {
                    phase: Phase::Finished,
                    outcome: if self.outcome is Ok {
                        Err(TermError::FatalIo(e))
                    } else {
                        self.outcome
                    },
                    ..self
                },
                _ => Editor { phase: Phase::Finished, ..self },
            },
            Phase::Finished => self,
        }
    }

    /// The attributes handed out for restoration on `event`, if any: on
    /// the quit key or a failure while running.
    pub open spec fn restored_on(self, event: Event) -> Option<A> {
        if self.phase == Phase::Running && self.next(event).phase == Phase::Restoring {
            self.saved
        } else {
            None
        }
    }

    /// Whether `r` is the action due on `event`.
    pub open spec fn action_of(self, event: Event, r: Action<A>) -> bool {
        let n = self.next(event);
        match self.restored_on(event) {
            Some(a) => r == Action::<A>::Restore(a),
            None => match self.phase {
                Phase::Running => match event {
                    Event::KeyRead(b) => r matches Action::Write(s) && s@ == echo_of(b as char)
                        + frame(n.screen.width as nat, n.screen.height as nat, n.screen.cursor),
                    _ => r is ReadKey,
                },
                Phase::Restoring => match event {
                    Event::Failed(e) => r == Action::<A>::Finish(n.outcome),
                    _ => r matches Action::Write(s) && s@ == clear_screen_seq() + home_seq(),
                },
                _ => r == Action::<A>::Finish(n.outcome),
            },
        }
    }

    /// A running session on a screen of `geometry`, cursor at the top left,
    /// that will hand back `saved` when it ends.
    pub fn new(geometry: Geometry, saved: A) -> (r: Editor<A>)
        ensures
            r.wf(),
            r.phase == Phase::Running,
            r.saved == Some(saved),
            r.outcome == Ok::<(), TermError>(()),
            r.screen.width == geometry.columns,
            r.screen.height == geometry.rows,
            r.screen.cursor == (CursorPosition { row: 0, column: 0 }),
    {
        Editor { screen: Screen::new(geometry), saved: Some(saved), phase: Phase::Running, outcome: Ok(()) }
    }

    /// The frame for the current state, written before the first read.
    pub fn refresh(&self) -> (r: String)
        ensures
            r@ == frame(self.screen.width as nat, self.screen.height as nat, self.screen.cursor),
    {
        self.screen.refresh()
    }

    /// Dispatches a key while running: the quit key ends the session, a
    /// navigation key moves the cursor, any other key is echoed. Returns
    /// whether the session is to end, and otherwise what to write.
    fn process_key(&mut self, b: u8) -> (r: Option<String>)
        requires
            old(self).phase == Phase::Running,
        ensures
            is_quit(b as char) <==> r is None,
            is_quit(b as char) ==> *final(self) == *old(self),
            !is_quit(b as char) ==> *final(self) == old(self).next(Event::KeyRead(b)),
            r matches Some(s) ==> s@ == echo_of(b as char) + frame(
                final(self).screen.width as nat,
                final(self).screen.height as nat,
                final(self).screen.cursor,
            ),
    {
        let key = key_from_byte(b);
        if is_quit_key(key) {
            return None;
        }
        self.screen.cursor.handle_navigation(key);
        let mut out = String::new();
        if !(key == 'w' || key == 's' || key == 'a' || key == 'd') {
            push_char(&mut out, key);
        }
        let ghost echoed = out@;
        let f = self.screen.refresh();
        let mut buffer = AnsiBuffer::new();
        buffer.append(out.as_str());
        buffer.append(f.as_str());
        let r = buffer.into_string();
        assert(echoed =~= echo_of(key));
        assert(r@ =~= echo_of(b as char) + frame(
            self.screen.width as nat,
            self.screen.height as nat,
            self.screen.cursor,
        ));
        Some(r)
    }

    /// Hands the saved attributes out for restoration.
    fn begin_exit(&mut self) -> (r: Action<A>)
        requires
            old(self).wf(),
            old(self).phase == Phase::Running,
        ensures
            r == Action::<A>::Restore(old(self).saved.unwrap()),
            final(self).saved is None,
            final(self).phase == Phase::Restoring,
            final(self).screen == old(self).screen,
            final(self).outcome == old(self).outcome,
    {
        self.phase = Phase::Restoring;
        match self.saved.take() {
            Some(a) => Action::Restore(a),
            None => Action::Finish(self.outcome),
        }
    }

    /// Takes in what came of the last action and returns the next one.
    pub fn step(&mut self, event: Event) -> (r: Action<A>)
        requires
            old(self).wf(),
        ensures
            final(self).wf(),
            *final(self) == old(self).next(event),
            old(self).action_of(event, r),
    {
        match self.phase {
            Phase::Running => match event {
                Event::KeyRead(b) => match self.process_key(b) {
                    Some(s) => Action::Write(s),
                    None => self.begin_exit(),
                },
                Event::Failed(e) => {
                    self.outcome = Err(TermError::FatalIo(e));
                    self.begin_exit()
                },
                _ => Action::ReadKey,
            },
            Phase::Restoring => match event {
                Event::Failed(e) => {
                    self.phase = Phase::Finished;
                    self.outcome = Err(TermError::TerminalApply(e));
                    Action::Finish(self.outcome)
                },
                _ => {
                    self.phase = Phase::Clearing;
                    let mut buffer = AnsiBuffer::new();
                    buffer.clear_screen();
                    buffer.move_top_left();
                    Action::Write(buffer.into_string())
                },
            },
            Phase::Clearing => {
                if let Event::Failed(e) = event {
                    if self.outcome.is_ok() {
                        self.outcome = Err(TermError::FatalIo(e));
                    }
                }
                self.phase = Phase::Finished;
                Action::Finish(self.outcome)
            },
            Phase::Finished => Action::Finish(self.outcome),
        }
    }
}

impl<A> Editor<A> {
    /// The state after each of `events` in turn.
    pub open spec fn run(self, events: Seq<Event>) -> Editor<A>
        decreases events.len(),
    {
        if events.len() == 0 {
            self
        } else {
            self.next(events[0]).run(events.drop_first())
        }
    }

    /// The attributes handed out for restoration along `events`, in order.
    pub open spec fn restorations(self, events: Seq<Event>) -> Seq<A>
        decreases events.len(),
    {
        if events.len() == 0 {
            Seq::empty()
        } else {
            let rest = self.next(events[0]).restorations(events.drop_first());
            match self.restored_on(events[0]) {
                Some(a) => seq![a] + rest,
                None => rest,
            }
        }
    }
}

proof fn lemma_after_running<A>(e: Editor<A>, events: Seq<Event>)
    requires
        e.phase != Phase::Running,
    ensures
        e.run(events).phase != Phase::Running,
        e.restorations(events) == Seq::<A>::empty(),
    decreases events.len(),
{
    if events.len() > 0 {
        lemma_after_running(e.next(events[0]), events.drop_first());
    }
}

/// Restoration happens exactly once on every way out of the running state,
/// and it hands back the very attributes that were saved when the session
/// began: a session still running has restored nothing, and one that has
/// left the running state, by the quit key or by a failure, has restored
/// `saved` once and nothing else.
pub proof fn restored_exactly_once<A>(e: Editor<A>, saved: A, events: Seq<Event>)
    requires
        e.wf(),
        e.phase == Phase::Running,
        e.saved == Some(saved),
    ensures
        e.run(events).phase == Phase::Running ==> e.restorations(events) == Seq::<A>::empty(),
        e.run(events).phase != Phase::Running ==> e.restorations(events) == seq![saved],
    decreases events.len(),
{
    if events.len() > 0 {
        let n = e.next(events[0]);
        let rest = events.drop_first();
        if n.phase == Phase::Running {
            restored_exactly_once(n, saved, rest);
        } else {
            lemma_after_running(n, rest);
            assert(seq![saved] + Seq::<A>::empty() =~= seq![saved]);
        }
    }
}

} // verus!
