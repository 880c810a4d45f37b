use vstd::prelude::*;

use crate::key::KeyCode;
use crate::key::KeyInput;
use crate::message::Message;
use crate::styles::FocusState;
use crate::Model;
use ratatui::crossterm::event::Event as CtEvent;
use ratatui::crossterm::event::KeyCode as CtCode;
use ratatui::crossterm::event::KeyEvent as CtKeyEvent;
use ratatui::crossterm::event::KeyModifiers as CtMods;
use tui_input::backend::crossterm::EventHandler;

verus! {

#[verifier::external_type_specification]
#[verifier::external_body]
pub struct ExInput(tui_input::Input);

#[verifier::external_type_specification]
#[verifier::external_body]
pub struct ExKeyEvent(CtKeyEvent);

/// The text a query editor currently holds.
pub uninterp spec fn input_text(i: tui_input::Input) -> Seq<char>;

/// Relies on tui_input::Input::new: the editor starts out holding
/// exactly the given value, with the cursor at its end; building it
/// only copies the text and never unwinds.
#[verifier::external_body]
fn input_with_value(value: &str) -> (r: tui_input::Input)
    ensures
        input_text(r) == value@,
    no_unwind
{
    tui_input::Input::new(value.to_string())
}

/// Relies on tui_input::Input::value: returns the text the editor
/// currently holds.
#[verifier::external_body]
fn input_value(i: &tui_input::Input) -> (r: String)
    ensures
        r@ == input_text(*i),
{
    i.value().to_owned()
}

/// Relies on crossterm's KeyEvent::new: builds the key event that
/// stands for this key press, mapping each key identity to its
/// crossterm counterpart and `Other` to the null key.
#[verifier::external_body]
fn key_event_of(key: &KeyInput) -> (r: CtKeyEvent) {
    let code = match key.code {
        KeyCode::Up => CtCode::Up, KeyCode::Down => CtCode::Down,
        KeyCode::Left => CtCode::Left, KeyCode::Right => CtCode::Right,
        KeyCode::Enter => CtCode::Enter, KeyCode::Tab => CtCode::Tab,
        KeyCode::BackTab => CtCode::BackTab, KeyCode::Esc => CtCode::Esc,
        KeyCode::Backspace => CtCode::Backspace, KeyCode::Delete => CtCode::Delete,
        KeyCode::Home => CtCode::Home, KeyCode::End => CtCode::End,
        KeyCode::Char(c) => CtCode::Char(c), KeyCode::Other => CtCode::Null,
    };
    let mut mods = CtMods::NONE;
    if key.ctrl { mods |= CtMods::CONTROL; }
    if key.alt { mods |= CtMods::ALT; }
    if key.shift { mods |= CtMods::SHIFT; }
    CtKeyEvent::new(code, mods)
}

/// Relies on tui_input's crossterm backend, Input::handle_event: applies
/// one key press to the editor, which edits its own well-formed state
/// and does not unwind.  What text results is tui_input's own editing
/// logic; nothing is assumed of it here.
#[verifier::external_body]
fn input_handle_key(i: &mut tui_input::Input, key: &KeyInput)
    no_unwind
{
    i.handle_event(&CtEvent::Key(key_event_of(key)));
}

/// A single-line text editor control: an optional label, an advisory
/// focus flag, and the edited text, which tui_input's editing logic
/// maintains key press by key press.
#[derive(Debug)]
pub struct InputControl {
    label: Option<String>,
    focus: FocusState,
    input: tui_input::Input,
}

impl InputControl {
    /// The text the control currently holds.
    pub closed spec fn text(&self) -> Seq<char> {
        input_text(self.input)
    }

    /// The label shown beside the control, if any.
    pub closed spec fn spec_label(&self) -> Option<Seq<char>> {
        match self.label {
            Some(l) => Some(l@),
            None => None,
        }
    }

    /// The control's advisory focus flag.
    pub closed spec fn focus_state(&self) -> FocusState {
        self.focus
    }

    /// An empty labelled control.
    pub fn from_label(label: &str) -> (r: Self)
        ensures
            r.text() == Seq::<char>::empty(),
            r.spec_label() matches Some(l) && l == label@,
            r.focus_state() == FocusState::Blur,
    {
        proof {
            reveal_strlit("");
            assert(""@ =~= Seq::<char>::empty());
        }
        Self {
            label: Some(label.to_owned()),
            focus: FocusState::Blur,
            input: input_with_value(""),
        }
    }

    /// An unlabelled control holding the given text.
    pub fn from_value(value: &str) -> (r: Self)
        ensures
            r.text() == value@,
            r.spec_label() is None,
            r.focus_state() == FocusState::Blur,
    {
        Self {
            label: None,
            focus: FocusState::Blur,
            input: input_with_value(value),
        }
    }

    /// A labelled control holding the given text.
    pub fn from_label_and_value(label: &str, value: &str) -> (r: Self)
        ensures
            r.text() == value@,
            r.spec_label() matches Some(l) && l == label@,
            r.focus_state() == FocusState::Blur,
    {
        Self {
            label: Some(label.to_owned()),
            focus: FocusState::Blur,
            input: input_with_value(value),
        }
    }

    /// Set the advisory focus flag, leaving text and label alone.
    pub fn set_focus(&mut self, focus: FocusState)
        ensures
            final(self).focus_state() == focus,
            final(self).text() == old(self).text(),
            final(self).spec_label() == old(self).spec_label(),
    {
        self.focus = focus;
    }

    /// The text the control currently holds, as an owned string.
    pub fn value(&self) -> (r: String)
        ensures
            r@ == self.text(),
    {
        input_value(&self.input)
    }

    /// Replace the text, leaving label and focus alone.
    pub fn set_value(&mut self, value: &str)
        ensures
            final(self).text() == value@,
            final(self).spec_label() == old(self).spec_label(),
            final(self).focus_state() == old(self).focus_state(),
        no_unwind
    {
        self.input = input_with_value(value);
    }

    /// Hand one key press to the editor and ask for a redraw.  What the
    /// press does to the text is the editor's business, but label and
    /// focus stay put.
    pub fn handle_key(&mut self, key: KeyInput) -> (r: Message)
        ensures
            r is Redraw,
            final(self).spec_label() == old(self).spec_label(),
            final(self).focus_state() == old(self).focus_state(),
        no_unwind
    {
        input_handle_key(&mut self.input, &key);
        Message::Redraw
    }

    /// The label shown beside the control, if any.
    pub fn label(&self) -> (r: &Option<String>)
        ensures
            r matches Some(l) ==> self.spec_label() matches Some(lv) && lv == l@,
            r is None ==> self.spec_label() is None,
    {
        &self.label
    }

    /// The control's advisory focus flag.
    pub fn focus(&self) -> (r: FocusState)
        ensures
            r == self.focus_state(),
    {
        self.focus
    }

    /// The backing editor, for the presentation layer's cursor and
    /// scroll arithmetic.
    pub fn raw_input(&self) -> (r: &tui_input::Input)
        ensures
            input_text(*r) == self.text(),
    {
        &self.input
    }
}

impl Model for InputControl {
    fn init(&mut self) -> (r: Message)
        ensures
            r is Noop,
            *final(self) == *old(self),
    {
        Message::Noop
    }

    /// A key press is handed to the editor and asks for a redraw; any
    /// other message falls through as `Noop`.  What the press does to
    /// the text is the editor's business, but label and focus stay put.
    fn update(&mut self, msg: Message) -> (r: Message)
        ensures
            msg is KeyPress ==> r is Redraw && final(self).spec_label() == old(self).spec_label()
                && final(self).focus_state() == old(self).focus_state(),
            !(msg is KeyPress) ==> r is Noop && *final(self) == *old(self),
    {
        match msg {
            Message::KeyPress(key) => self.handle_key(key),
            _ => Message::Noop,
        }
    }

    fn help(&self) -> (r: Option<String>)
        ensures
            r is None,
    {
        None
    }

    fn set_focus(&mut self, focused: FocusState)
        ensures
            *final(self) == *old(self),
    {
    }
}

} // verus!
