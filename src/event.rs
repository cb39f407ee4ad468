use vstd::prelude::*;

verus! {

/// Which key an input event is about. The key handler reads only character
/// keys; every other key is carried as `Other`.
#[derive(Clone, Copy, Debug, PartialEq, Eq, Structural)]
pub enum KeyCode {
    Char(char),
    Other,
}

/// Whether a key went down, is auto-repeating, or came up.
#[derive(Clone, Copy, Debug, PartialEq, Eq, Structural)]
pub enum KeyEventKind {
    Press,
    Repeat,
    Release,
}

#[derive(Clone, Copy, Debug, PartialEq, Eq, Structural)]
pub struct KeyEvent {
    pub code: KeyCode,
    pub kind: KeyEventKind,
}

/// One input event delivered by the terminal. Mouse, resize, focus and paste
/// events are all `Other`: the key handler ignores them.
#[derive(Clone, Copy, Debug, PartialEq, Eq, Structural)]
pub enum InputEvent {
    Key(KeyEvent),
    Other,
}

/// The key that asks the loop to stop.
pub const QUIT_KEY: char = 'q';

/// Application state owned by the event loop's caller.
#[derive(Clone, Copy, Debug, PartialEq, Eq, Structural)]
pub struct App {
    pub should_quit: bool,
}

/// `e` is a press (neither a repeat nor a release) of the quit key.
pub open spec fn is_quit_press(e: InputEvent) -> bool {
    e == InputEvent::Key(KeyEvent { code: KeyCode::Char(QUIT_KEY), kind: KeyEventKind::Press })
}

/// The state after the key handler has seen `e`: a quit press sets the flag,
/// any other event leaves the state as it was.
pub open spec fn handled(app: App, e: InputEvent) -> App {
    if is_quit_press(e) {
        App { should_quit: true }
    } else {
        app
    }
}

impl KeyEvent {
    pub fn new(code: KeyCode, kind: KeyEventKind) -> (r: KeyEvent)
        ensures
            r.code == code,
            r.kind == kind,
    {
        KeyEvent { code, kind }
    }
}

impl InputEvent {
    /// A key event for character `c` of the given kind.
    pub fn char_key(c: char, kind: KeyEventKind) -> (r: InputEvent)
        ensures
            r == InputEvent::Key(KeyEvent { code: KeyCode::Char(c), kind }),
    {
        InputEvent::Key(KeyEvent { code: KeyCode::Char(c), kind })
    }

    /// Whether this event is a press of the quit key.
    pub fn is_quit(&self) -> (r: bool)
        ensures
            r == is_quit_press(*self),
    {
        match self {
            InputEvent::Key(k) => {
                let is_press = match k.kind {
                    KeyEventKind::Press => true,
                    _ => false,
                };
                let is_q = match k.code {
                    KeyCode::Char(c) => c == QUIT_KEY,
                    KeyCode::Other => false,
                };
                is_press && is_q
            },
            InputEvent::Other => false,
        }
    }
}

impl App {
    /// A fresh state: the loop has not been asked to quit.
    pub fn new() -> (r: App)
        ensures
            !r.should_quit,
    {
        App { should_quit: false }
    }

    /// The key handler: a press of the quit key sets `should_quit`; every
    /// other event, including a repeat or a release of that key, changes
    /// nothing.
    pub fn handle_event(&mut self, e: &InputEvent)
        ensures
            *final(self) == handled(*old(self), *e),
            final(self).should_quit == (old(self).should_quit || is_quit_press(*e)),
    {
        if e.is_quit() {
            self.should_quit = true;
        }
    }
}

} // verus!
