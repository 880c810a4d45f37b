use vstd::prelude::*;

use crate::message::Message;
use crate::styles::FocusState;
use crate::Model;

verus! {

/// A modal message box: it shows one text and ends its own run on any
/// key press.
pub struct Popup(String);

impl Popup {
    /// A popup showing the given text.
    pub fn new(message: String) -> (r: Self)
        ensures
            r.spec_text() == message@,
    {
        Popup(message)
    }

    /// The text the popup shows.
    pub closed spec fn spec_text(&self) -> Seq<char> {
        self.0@
    }

    /// The text the popup shows.
    pub fn text(&self) -> (r: &String)
        ensures
            r@ == self.spec_text(),
    {
        &self.0
    }
}

impl Model for Popup {
    fn init(&mut self) -> (r: Message)
        ensures
            r is Noop,
            *final(self) == *old(self),
    {
        Message::Noop
    }

    /// Any key press dismisses the popup by quitting its run; every
    /// other message falls through as `Noop`.
    fn update(&mut self, msg: Message) -> (r: Message)
        ensures
            *final(self) == *old(self),
            msg is KeyPress ==> r is Quit,
            !(msg is KeyPress) ==> r is Noop,
    {
        match msg {
            Message::KeyPress(_) => Message::Quit,
            _ => Message::Noop,
        }
    }

    fn help(&self) -> (r: Option<String>)
        ensures
            r is None,
    {
        None
    }

    fn set_focus(&mut self, focused: FocusState)
        ensures
            *final(self) == *old(self),
    {
    }
}

} // verus!
