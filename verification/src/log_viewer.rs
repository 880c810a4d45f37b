use vstd::prelude::*;
use vstd::string::StringExecFns;

use crate::key::KeyCode;
use crate::key::KeyInput;
use crate::message::Message;
use crate::styles::FocusState;
use crate::Model;

verus! {

/// The overlay's three states: out of sight, shown over the model's
/// view, or shown while the model keeps receiving the input.
#[derive(Debug, Clone, Copy, PartialEq, Eq, Structural)]
pub enum LogViewState {
    Hidden,
    Shown,
    Listening,
}

/// The key that summons or dismisses the overlay.
pub open spec fn is_toggle_key(k: KeyInput) -> bool {
    k.code == KeyCode::Char('?')
}

/// The keys that dismiss the overlay once it shows.
pub open spec fn is_dismiss_key(k: KeyInput) -> bool {
    k.code == KeyCode::Esc || k.code == KeyCode::Char('?')
}

/// The chord that toggles whether the model keeps listening while the
/// overlay shows.
pub open spec fn is_listen_key(k: KeyInput) -> bool {
    k.code == KeyCode::Char('l') && k.ctrl
}

/// Wraps a model with a log overlay: a dedicated key summons a view of
/// the captured log over the model's own view, and a chord decides
/// whether the wrapped model keeps receiving input meanwhile.
pub struct LogViewer<M: Model> {
    model: M,
    view_state: LogViewState,
}

impl<M: Model> LogViewer<M> {
    /// The wrapped model.
    pub closed spec fn spec_model(&self) -> M {
        self.model
    }

    /// The overlay's state.
    pub closed spec fn spec_view_state(&self) -> LogViewState {
        self.view_state
    }

    /// The overlay's state.
    pub fn view_state(&self) -> (r: LogViewState)
        ensures
            r == self.spec_view_state(),
    {
        self.view_state
    }

    /// The wrapped model, for rendering.
    pub fn model(&self) -> (r: &M)
        ensures
            *r == self.spec_model(),
    {
        &self.model
    }

    /// The wrapped model, for rendering that updates internal state.
    pub fn model_mut(&mut self) -> (r: &mut M)
        ensures
            *r == old(self).spec_model(),
            final(self).spec_model() == *final(r),
            final(self).spec_view_state() == old(self).spec_view_state(),
    {
        &mut self.model
    }

    /// Wrap a model, with the overlay out of sight.
    pub fn new(model: M) -> (r: Self)
        ensures
            r.spec_model() == model,
            r.spec_view_state() == LogViewState::Hidden,
    {
        Self { model, view_state: LogViewState::Hidden }
    }

    /// Unwrap the model, for inspection after the run.
    pub fn into_model(self) -> (r: M)
        ensures
            r == self.spec_model(),
    {
        self.model
    }

    /// The overlay's own key handling: summon, dismiss, and the
    /// listening toggle; in the listening state every unclaimed message
    /// still reaches the model.
    pub fn handle_keypress(&mut self, msg: Message) -> (r: Message)
        ensures
            match old(self).spec_view_state() {
                LogViewState::Hidden => match msg {
                    Message::KeyPress(k) => if is_toggle_key(k) {
                        &&& final(self).spec_view_state() == LogViewState::Shown
                        &&& final(self).spec_model() == old(self).spec_model()
                        &&& r is Redraw
                    } else {
                        *final(self) == *old(self) && r is Noop
                    },
                    _ => *final(self) == *old(self) && r is Noop,
                },
                LogViewState::Shown => match msg {
                    Message::KeyPress(k) => if is_dismiss_key(k) {
                        &&& final(self).spec_view_state() == LogViewState::Hidden
                        &&& final(self).spec_model() == old(self).spec_model()
                        &&& r is Redraw
                    } else if is_listen_key(k) {
                        &&& final(self).spec_view_state() == LogViewState::Listening
                        &&& final(self).spec_model() == old(self).spec_model()
                        &&& r is Redraw
                    } else {
                        *final(self) == *old(self) && r is Noop
                    },
                    _ => *final(self) == *old(self) && r is Noop,
                },
                LogViewState::Listening => match msg {
                    Message::KeyPress(k) => if is_dismiss_key(k) {
                        &&& final(self).spec_view_state() == LogViewState::Hidden
                        &&& final(self).spec_model() == old(self).spec_model()
                        &&& r is Redraw
                    } else if is_listen_key(k) {
                        &&& final(self).spec_view_state() == LogViewState::Shown
                        &&& final(self).spec_model() == old(self).spec_model()
                        &&& r is Redraw
                    } else {
                        // the model handles it
                        final(self).spec_view_state() == LogViewState::Listening
                    },
                    _ => final(self).spec_view_state() == LogViewState::Listening,
                },
            },
    {
        match self.view_state {
            LogViewState::Hidden => {
                match msg {
                    Message::KeyPress(k) => {
                        if k.code == KeyCode::Char('?') {
                            self.view_state = LogViewState::Shown;
                            Message::Redraw
                        } else {
                            Message::Noop
                        }
                    },
                    _ => Message::Noop,
                }
            },
            LogViewState::Shown => {
                match msg {
                    Message::KeyPress(k) => {
                        if k.code == KeyCode::Esc || k.code == KeyCode::Char('?') {
                            self.view_state = LogViewState::Hidden;
                            Message::Redraw
                        } else if k.code == KeyCode::Char('l') && k.ctrl {
                            self.view_state = LogViewState::Listening;
                            Message::Redraw
                        } else {
                            Message::Noop
                        }
                    },
                    _ => Message::Noop,
                }
            },
            LogViewState::Listening => {
                match msg {
                    Message::KeyPress(k) => {
                        if k.code == KeyCode::Esc || k.code == KeyCode::Char('?') {
                            self.view_state = LogViewState::Hidden;
                            Message::Redraw
                        } else if k.code == KeyCode::Char('l') && k.ctrl {
                            self.view_state = LogViewState::Shown;
                            Message::Redraw
                        } else {
                            self.model.update(msg)
                        }
                    },
                    _ => self.model.update(msg),
                }
            },
        }
    }
}

impl<M: Model> Model for LogViewer<M> {
    /// Start the wrapped model; the overlay stays as it is.
    fn init(&mut self) -> (r: Message)
        ensures
            final(self).spec_view_state() == old(self).spec_view_state(),
    {
        self.model.init()
    }

    /// With the overlay out of sight the model sees the message first,
    /// and only a message the model left untouched reaches the
    /// overlay's own keys; with the overlay showing, the overlay's keys
    /// decide by themselves.
    fn update(&mut self, msg: Message) -> (r: Message)
        ensures
            old(self).spec_view_state() == LogViewState::Hidden ==> (final(self).spec_view_state()
                == LogViewState::Hidden || (msg matches Message::KeyPress(k) && is_toggle_key(k)
                && final(self).spec_view_state() == LogViewState::Shown)),
            old(self).spec_view_state() == LogViewState::Shown ==> (match msg {
                Message::KeyPress(k) => if is_dismiss_key(k) {
                    &&& final(self).spec_view_state() == LogViewState::Hidden
                    &&& final(self).spec_model() == old(self).spec_model()
                    &&& r is Redraw
                } else if is_listen_key(k) {
                    &&& final(self).spec_view_state() == LogViewState::Listening
                    &&& final(self).spec_model() == old(self).spec_model()
                    &&& r is Redraw
                } else {
                    *final(self) == *old(self) && r is Noop
                },
                _ => *final(self) == *old(self) && r is Noop,
            }),
            old(self).spec_view_state() == LogViewState::Listening ==> (match msg {
                Message::KeyPress(k) => if is_dismiss_key(k) {
                    &&& final(self).spec_view_state() == LogViewState::Hidden
                    &&& final(self).spec_model() == old(self).spec_model()
                    &&& r is Redraw
                } else if is_listen_key(k) {
                    &&& final(self).spec_view_state() == LogViewState::Shown
                    &&& final(self).spec_model() == old(self).spec_model()
                    &&& r is Redraw
                } else {
                    final(self).spec_view_state() == LogViewState::Listening
                },
                _ => final(self).spec_view_state() == LogViewState::Listening,
            }),
    {
        match self.view_state {
            LogViewState::Hidden => {
                let first = self.model.update(msg.duplicate());
                match first {
                    Message::Noop => self.handle_keypress(msg),
                    other => other,
                }
            },
            LogViewState::Shown | LogViewState::Listening => self.handle_keypress(msg),
        }
    }

    /// The overlay adds its own hint to the model's while hidden, and
    /// explains its keys while showing.
    fn help(&self) -> (r: Option<String>)
        ensures
            self.spec_view_state() == LogViewState::Hidden ==> r is Some,
            self.spec_view_state() != LogViewState::Hidden ==> (r matches Some(h) && h@
                == "CTRL+L to toggle listening; ESC or ? to dismiss"@),
    {
        match self.view_state {
            LogViewState::Hidden => {
                match self.model.help() {
                    Some(help) => Some(help.concat("; ? for logs")),
                    None => Some(String::from_str("? for logs")),
                }
            },
            LogViewState::Shown | LogViewState::Listening => Some(
                String::from_str("CTRL+L to toggle listening; ESC or ? to dismiss"),
            ),
        }
    }

    fn set_focus(&mut self, focused: FocusState)
        ensures
            *final(self) == *old(self),
    {
    }
}

} // verus!
