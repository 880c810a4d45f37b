use vstd::prelude::*;

pub mod button;
pub mod error;
pub mod input_control;
pub mod key;
pub mod listview;
pub mod log_viewer;
pub mod mainlooper;
pub mod message;
pub mod popup;
pub mod spinner;
pub mod styles;
pub mod tabcontroller;

use crate::message::Message;
use crate::styles::FocusState;

verus! {

/// The capability set the runtime drives.  The dispatch loop owns one
/// root model for the lifetime of a run and never inspects its
/// internals: it only calls these methods.  Rendering is the
/// presentation layer's business and stays outside this crate; a model
/// that draws pairs this state with a view routine there.
pub trait Model {
    /// Produce the first message to schedule when the run starts.
    fn init(&mut self) -> Message;

    /// Advance the state by one message; the returned message is handed
    /// to the command scheduler.
    fn update(&mut self, msg: Message) -> Message;

    /// A short usage hint, if the model offers one.
    fn help(&self) -> Option<String>;

    /// Advisory focus toggle, set by a parent composite model.
    fn set_focus(&mut self, focused: FocusState);
}

impl<M: Model> Model for Option<M> {
    fn init(&mut self) -> Message {
        match self {
            Some(inner) => inner.init(),
            None => Message::Noop,
        }
    }

    fn update(&mut self, msg: Message) -> Message {
        match self {
            Some(inner) => inner.update(msg),
            None => Message::Noop,
        }
    }

    fn help(&self) -> Option<String> {
        match self {
            Some(inner) => inner.help(),
            None => None,
        }
    }

    fn set_focus(&mut self, focused: FocusState) {
        match self {
            Some(inner) => inner.set_focus(focused),
            None => (),
        }
    }
}

} // verus!
