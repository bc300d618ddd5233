//! What the keyboard reports, reduced to what the dashboard reads.

use vstd::prelude::*;

verus! {

/// The key of a key event.
#[derive(Clone, Copy, Debug, PartialEq, Eq, Structural)]
pub enum KeyCode {
    /// A key that types a character.
    Char(char),
    /// Any other key.
    Other,
}

/// The transition of the key that a key event reports.
#[derive(Clone, Copy, Debug, PartialEq, Eq, Structural)]
pub enum KeyEventKind {
    /// The key went from released to pressed.
    Press,
    /// The key is held down and repeats.
    Repeat,
    /// The key was released.
    Release,
}

/// One key event.
#[derive(Clone, Copy, Debug, PartialEq, Eq, Structural)]
pub struct KeyEvent {
    pub code: KeyCode,
    pub kind: KeyEventKind,
}

/// One input event of the terminal.
#[derive(Clone, Copy, Debug, PartialEq, Eq, Structural)]
pub enum Event {
    /// A key event.
    Key(KeyEvent),
    /// Anything else: focus, mouse, paste or resize.
    Other,
}

impl KeyCode {
    /// The two keys that are bound: `q` and `Q`.
    pub open spec fn is_quit_key(self) -> bool {
        self == KeyCode::Char('q') || self == KeyCode::Char('Q')
    }
}

impl KeyEvent {
    /// A key event of `kind` for `code`.
    pub fn new(code: KeyCode, kind: KeyEventKind) -> (event: KeyEvent)
        ensures
            event == (KeyEvent { code, kind }),
    {
        KeyEvent { code, kind }
    }

    /// The event asks the dashboard to quit: a press, no repeat nor release,
    /// of a quit key.
    pub open spec fn requests_quit(self) -> bool {
        self.kind == KeyEventKind::Press && self.code.is_quit_key()
    }

    /// Tells whether the event asks the dashboard to quit.
    pub fn is_quit(&self) -> (quit: bool)
        ensures
            quit == self.requests_quit(),
    {
        match self.kind {
            KeyEventKind::Press => match self.code {
                KeyCode::Char(c) => c == 'q' || c == 'Q',
                KeyCode::Other => false,
            },
            KeyEventKind::Repeat => false,
            KeyEventKind::Release => false,
        }
    }
}

impl From<KeyCode> for KeyEvent {
    /// The press of `code`.
    fn from(code: KeyCode) -> (event: KeyEvent) {
        KeyEvent { code, kind: KeyEventKind::Press }
    }
}

impl vstd::std_specs::convert::FromSpecImpl<KeyCode> for KeyEvent {
    open spec fn obeys_from_spec() -> bool {
        true
    }

    open spec fn from_spec(code: KeyCode) -> KeyEvent {
        KeyEvent { code, kind: KeyEventKind::Press }
    }
}

impl Event {
    /// The event asks the dashboard to quit: it is a key event that does.
    pub open spec fn requests_quit(self) -> bool {
        match self {
            Event::Key(key_event) => key_event.requests_quit(),
            Event::Other => false,
        }
    }
}

/// What a poll of the keyboard asks once it has answered: to quit if an event
/// came in time and it requests that, nothing otherwise.
pub open spec fn poll_requests_quit(polled: Option<Event>) -> bool {
    match polled {
        Some(event) => event.requests_quit(),
        None => false,
    }
}

} // verus!
