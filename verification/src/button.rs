use vstd::prelude::*;
use vstd::string::StringExecFns;

use crate::key::KeyCode;
use crate::message::same_message;
use crate::message::Message;
use crate::styles::FocusState;
use crate::Model;

verus! {

/// A labelled push button that emits a pre-built message when
/// activated.
#[derive(Debug)]
pub struct Button {
    label: String,
    focus: FocusState,
    on_press: Message,
}

/// The keys that activate a button.
pub open spec fn is_press_key(c: KeyCode) -> bool {
    c == KeyCode::Enter || c == KeyCode::Char(' ')
}

impl Button {
    /// The button's caption.
    pub closed spec fn spec_label(&self) -> Seq<char> {
        self.label@
    }

    /// The message emitted when the button is activated.
    pub closed spec fn spec_on_press(&self) -> Message {
        self.on_press
    }

    /// The advisory focus flag.
    pub closed spec fn focus_state(&self) -> FocusState {
        self.focus
    }

    /// The button's caption.
    pub fn label(&self) -> (r: &String)
        ensures
            r@ == self.spec_label(),
    {
        &self.label
    }

    /// The advisory focus flag.
    pub fn focus(&self) -> (r: FocusState)
        ensures
            r == self.focus_state(),
    {
        self.focus
    }

    /// A button with the given caption, emitting the given message.
    pub fn new(label: &str, msg: Message) -> (r: Self)
        ensures
            r.spec_label() == label@,
            r.spec_on_press() == msg,
            r.focus_state() == FocusState::Blur,
    {
        Self { label: label.to_owned(), focus: FocusState::Blur, on_press: msg }
    }
}

impl Model for Button {
    fn init(&mut self) -> (r: Message)
        ensures
            r is Noop,
            *final(self) == *old(self),
    {
        Message::Noop
    }

    /// An activating key press emits a copy of the stored message;
    /// everything else falls through as `Noop`.  The button itself
    /// never changes.
    fn update(&mut self, msg: Message) -> (r: Message)
        ensures
            *final(self) == *old(self),
            match msg {
                Message::KeyPress(k) => if is_press_key(k.code) {
                    same_message(old(self).spec_on_press(), r)
                } else {
                    r is Noop
                },
                _ => r is Noop,
            },
    {
        match msg {
            Message::KeyPress(key) => match key.code {
                KeyCode::Enter | KeyCode::Char(' ') => self.on_press.duplicate(),
                _ => Message::Noop,
            },
            _ => Message::Noop,
        }
    }

    fn help(&self) -> (r: Option<String>)
        ensures
            r matches Some(h) && h@ == "Press ENTER or SPACE to activate the "@
                + self.spec_label() + " button"@,
    {
        Some(
            String::from_str("Press ENTER or SPACE to activate the ").concat(
                self.label.as_str(),
            ).concat(" button"),
        )
    }

    fn set_focus(&mut self, focused: FocusState)
        ensures
            final(self).focus_state() == focused,
            final(self).spec_label() == old(self).spec_label(),
            final(self).spec_on_press() == old(self).spec_on_press(),
    {
        self.focus = focused;
    }
}

/// A horizontal row of buttons of which at most one holds focus; the
/// focused button receives the input.
#[derive(Debug)]
pub struct ButtonBar {
    buttons: Vec<Button>,
    focus_index: usize,
}

impl ButtonBar {
    /// The buttons, in display order.
    pub closed spec fn spec_buttons(&self) -> Seq<Button> {
        self.buttons@
    }

    /// Which button currently receives input; out of range means none.
    pub closed spec fn spec_focus_index(&self) -> usize {
        self.focus_index
    }

    /// A bar over the given buttons, focusing the first.
    pub fn new(buttons: Vec<Button>) -> (r: Self)
        ensures
            r.spec_buttons() == buttons@,
            r.spec_focus_index() == 0,
    {
        Self { buttons, focus_index: 0 }
    }

    /// A Yes / No pair.
    pub fn yes_no() -> (r: Self)
        ensures
            r.spec_buttons().len() == 2,
            r.spec_buttons()[0].spec_label() == "Yes"@,
            r.spec_buttons()[0].spec_on_press() == Message::Yes,
            r.spec_buttons()[1].spec_label() == "No"@,
            r.spec_buttons()[1].spec_on_press() == Message::No,
            r.spec_focus_index() == 0,
    {
        let mut buttons: Vec<Button> = Vec::new();
        buttons.push(Button::new("Yes", Message::Yes));
        buttons.push(Button::new("No", Message::No));
        Self::new(buttons)
    }

    /// An OK / Cancel pair.
    pub fn ok_cancel() -> (r: Self)
        ensures
            r.spec_buttons().len() == 2,
            r.spec_buttons()[0].spec_label() == "OK"@,
            r.spec_buttons()[0].spec_on_press() == Message::Yes,
            r.spec_buttons()[1].spec_label() == "Cancel"@,
            r.spec_buttons()[1].spec_on_press() == Message::No,
            r.spec_focus_index() == 0,
    {
        let mut buttons: Vec<Button> = Vec::new();
        buttons.push(Button::new("OK", Message::Yes));
        buttons.push(Button::new("Cancel", Message::No));
        Self::new(buttons)
    }

    /// An OK / Quit pair.
    pub fn ok_quit() -> (r: Self)
        ensures
            r.spec_buttons().len() == 2,
            r.spec_buttons()[0].spec_label() == "OK"@,
            r.spec_buttons()[0].spec_on_press() == Message::Yes,
            r.spec_buttons()[1].spec_label() == "Quit"@,
            r.spec_buttons()[1].spec_on_press() == Message::Quit,
            r.spec_focus_index() == 0,
    {
        let mut buttons: Vec<Button> = Vec::new();
        buttons.push(Button::new("OK", Message::Yes));
        buttons.push(Button::new("Quit", Message::Quit));
        Self::new(buttons)
    }

    /// Which button currently receives input; out of range means none.
    pub fn focused_index(&self) -> (r: usize)
        ensures
            r == self.spec_focus_index(),
    {
        self.focus_index
    }

    /// The captions of the buttons, in display order.
    pub fn button_labels(&self) -> (r: Vec<String>)
        ensures
            r@.len() == self.spec_buttons().len(),
            forall|i: int|
                0 <= i < r@.len() ==> #[trigger] r@[i]@ == self.spec_buttons()[i].spec_label(),
    {
        let mut out: Vec<String> = Vec::new();
        let mut i: usize = 0;
        while i < self.buttons.len()
            invariant
                i <= self.buttons@.len(),
                out@.len() == i as int,
                forall|j: int|
                    0 <= j < i as int ==> #[trigger] out@[j]@ == self.buttons@[j].spec_label(),
            decreases self.buttons@.len() - i,
        {
            out.push(self.buttons[i].label().clone());
            i = i + 1;
        }
        out
    }

    /// Move the focus to the given button; an out-of-range index is
    /// ignored.
    pub fn set_focus(&mut self, index: usize)
        ensures
            final(self).spec_buttons() == old(self).spec_buttons(),
            index < old(self).spec_buttons().len() ==> final(self).spec_focus_index() == index,
            index >= old(self).spec_buttons().len() ==> final(self).spec_focus_index() == old(
                self,
            ).spec_focus_index(),
    {
        if index < self.buttons.len() {
            self.focus_index = index;
        }
    }

    /// Take the focus off every button.
    pub fn blur(&mut self)
        ensures
            final(self).spec_buttons() == old(self).spec_buttons(),
            final(self).spec_focus_index() == usize::MAX,
    {
        self.focus_index = usize::MAX;
    }
}

impl Model for ButtonBar {
    fn init(&mut self) -> (r: Message)
        ensures
            r is Noop,
            *final(self) == *old(self),
    {
        Message::Noop
    }

    /// The focused button decides; with no button focused the message
    /// falls through as `Noop`.
    fn update(&mut self, msg: Message) -> (r: Message)
        ensures
            final(self).spec_focus_index() == old(self).spec_focus_index(),
            final(self).spec_buttons() == old(self).spec_buttons(),
            (old(self).spec_focus_index() as int) < old(self).spec_buttons().len() ==> (match msg {
                Message::KeyPress(k) => if is_press_key(k.code) {
                    same_message(
                        old(self).spec_buttons()[old(self).spec_focus_index() as int].spec_on_press(),
                        r,
                    )
                } else {
                    r is Noop
                },
                _ => r is Noop,
            }),
            (old(self).spec_focus_index() as int) >= old(self).spec_buttons().len() ==> r is Noop,
    {
        if self.focus_index < self.buttons.len() {
            let idx = self.focus_index;
            let r = self.buttons[idx].update(msg);
            proof {
                assert(self.buttons@ =~= old(self).buttons@);
            }
            r
        } else {
            Message::Noop
        }
    }

    fn help(&self) -> (r: Option<String>)
        ensures
            (self.spec_focus_index() as int) < self.spec_buttons().len() ==> (r matches Some(h)
                && h@ == "Press ENTER or SPACE to activate the "@ + self.spec_buttons()[
                self.spec_focus_index() as int].spec_label() + " button"@),
            (self.spec_focus_index() as int) >= self.spec_buttons().len() ==> (r matches Some(h)
                && h@ == "No button active"@),
    {
        if self.focus_index < self.buttons.len() {
            self.buttons[self.focus_index].help()
        } else {
            Some(String::from_str("No button active"))
        }
    }

    fn set_focus(&mut self, focused: FocusState)
        ensures
            *final(self) == *old(self),
    {
    }
}

} // verus!
