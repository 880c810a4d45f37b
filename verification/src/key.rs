use vstd::prelude::*;

verus! {

/// The key identities the runtime distinguishes.  Keys that no component
/// reacts to arrive as `Other`.
#[derive(Debug, Clone, Copy, PartialEq, Eq, Structural)]
pub enum KeyCode {
    Up,
    Down,
    Left,
    Right,
    Enter,
    Tab,
    BackTab,
    Esc,
    Backspace,
    Delete,
    Home,
    End,
    Char(char),
    Other,
}

/// A key press: the key identity plus the modifier flags the runtime
/// reads.
#[derive(Debug, Clone, Copy, PartialEq, Eq, Structural)]
pub struct KeyInput {
    pub code: KeyCode,
    pub ctrl: bool,
    pub alt: bool,
    pub shift: bool,
}

impl KeyInput {
    /// A key press with no modifiers held.
    pub fn plain(code: KeyCode) -> (r: KeyInput)
        ensures
            r == (KeyInput { code, ctrl: false, alt: false, shift: false }),
    {
        KeyInput { code, ctrl: false, alt: false, shift: false }
    }

    /// The process-interrupt chord (control and 'c', nothing else held),
    /// which always ends the run no matter what the model wants.
    pub open spec fn spec_is_quit_chord(self) -> bool {
        self.code == KeyCode::Char('c') && self.ctrl && !self.alt && !self.shift
    }

    /// Decide whether this press is the process-interrupt chord.
    pub fn is_quit_chord(&self) -> (r: bool)
        ensures
            r == self.spec_is_quit_chord(),
    {
        self.ctrl && !self.alt && !self.shift && self.code == KeyCode::Char('c')
    }
}

} // verus!
