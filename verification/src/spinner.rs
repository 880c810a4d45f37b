use vstd::prelude::*;

use crate::message::Message;
use crate::message::TimerToken;
use crate::styles::FocusState;
use crate::Model;

verus! {

/// A cyclic activity indicator driven by its own periodic timer.  It
/// keeps the token of the most recently issued timer and ignores any
/// expiry notice carrying an older one, which is how the period is
/// restarted without races.
pub struct Spinner {
    chars: Vec<char>,
    index: usize,
    id: TimerToken,
}

/// How long one animation step lasts, in milliseconds.
pub const SPINNER_STEP_MS: u64 = 100;

impl Spinner {
    /// The animation frames, in order.
    pub closed spec fn spec_chars(&self) -> Seq<char> {
        self.chars@
    }

    /// Which frame is showing.
    pub closed spec fn spec_index(&self) -> usize {
        self.index
    }

    /// The token of the most recently issued timer.
    pub closed spec fn spec_id(&self) -> TimerToken {
        self.id
    }

    #[verifier::type_invariant]
    spec fn type_inv(&self) -> bool {
        (self.index as int) < self.chars@.len()
    }

    /// A spinner over the given frames, showing the first.
    pub fn new_from_iter(chars: Vec<char>) -> (r: Self)
        requires
            chars@.len() > 0,
        ensures
            r.spec_chars() == chars@,
            r.spec_index() == 0,
    {
        Spinner { chars, index: 0, id: fresh_spinner_token() }
    }

    /// The default spinner: a turning line.
    pub fn new() -> (r: Self)
        ensures
            r.spec_chars().len() == 4,
            r.spec_index() == 0,
    {
        let mut chars: Vec<char> = Vec::new();
        chars.push('|');
        chars.push('/');
        chars.push('-');
        chars.push('\\');
        Self::new_from_iter(chars)
    }

    /// A spinner of turning circle quarters.
    pub fn circles() -> (r: Self)
        ensures
            r.spec_chars().len() == 4,
            r.spec_index() == 0,
    {
        let mut chars: Vec<char> = Vec::new();
        chars.push('\u{25d0}');
        chars.push('\u{25d3}');
        chars.push('\u{25d1}');
        chars.push('\u{25d2}');
        Self::new_from_iter(chars)
    }

    /// A spinner of a wandering braille dot.
    pub fn dots() -> (r: Self)
        ensures
            r.spec_chars().len() == 8,
            r.spec_index() == 0,
    {
        let mut chars: Vec<char> = Vec::new();
        chars.push('\u{2801}');
        chars.push('\u{2802}');
        chars.push('\u{2804}');
        chars.push('\u{2840}');
        chars.push('\u{2880}');
        chars.push('\u{2820}');
        chars.push('\u{2810}');
        chars.push('\u{2808}');
        Self::new_from_iter(chars)
    }

    /// A spinner of turning arrows.
    pub fn arrows() -> (r: Self)
        ensures
            r.spec_chars().len() == 8,
            r.spec_index() == 0,
    {
        let mut chars: Vec<char> = Vec::new();
        chars.push('\u{2190}');
        chars.push('\u{2196}');
        chars.push('\u{2191}');
        chars.push('\u{2197}');
        chars.push('\u{2192}');
        chars.push('\u{2198}');
        chars.push('\u{2193}');
        chars.push('\u{2199}');
        Self::new_from_iter(chars)
    }

    /// The frame to paint now.
    pub fn symbol(&self) -> (r: char)
        ensures
            r == self.spec_chars()[self.spec_index() as int],
    {
        proof {
            use_type_invariant(&*self);
        }
        self.chars[self.index]
    }
}

impl Default for Spinner {
    fn default() -> (r: Self)
        ensures
            r.spec_chars().len() == 4,
            r.spec_index() == 0,
    {
        Self::new()
    }
}

/// The placeholder token a spinner holds before its first timer is
/// issued, minted like any timer token.
fn fresh_spinner_token() -> (r: TimerToken) {
    let (id, _msg) = Message::tick(SPINNER_STEP_MS);
    id
}

impl Model for Spinner {
    /// Issue the first animation timer and remember its token.
    fn init(&mut self) -> (r: Message)
        ensures
            r == Message::Tik(final(self).spec_id(), SPINNER_STEP_MS),
            final(self).spec_chars() == old(self).spec_chars(),
            final(self).spec_index() == old(self).spec_index(),
    {
        proof {
            use_type_invariant(&*self);
        }
        let (id, tik) = Message::tick(SPINNER_STEP_MS);
        self.id = id;
        tik
    }

    /// A timer expiry carrying the current token advances the frame and
    /// re-arms the timer under a fresh token; one carrying a stale token
    /// is ignored entirely — no redraw, no re-arm.  Everything else
    /// falls through as `Noop`.
    fn update(&mut self, msg: Message) -> (r: Message)
        ensures
            match msg {
                Message::Tok(id) => if id == old(self).spec_id() {
                    &&& final(self).spec_chars() == old(self).spec_chars()
                    &&& final(self).spec_index() as int == (old(self).spec_index() + 1) % (
                    old(self).spec_chars().len() as int)
                    &&& (r matches Message::Batch(v) && v@.len() == 2 && v@[0] is Redraw && v@[1]
                        == Message::Tik(final(self).spec_id(), SPINNER_STEP_MS))
                } else {
                    *final(self) == *old(self) && r is Noop
                },
                _ => *final(self) == *old(self) && r is Noop,
            },
    {
        proof {
            use_type_invariant(&*self);
        }
        match msg {
            Message::Tok(id) => {
                if id == self.id {
                    let n = self.chars.len();
                    self.index = (self.index + 1) % n;
                    let (new_id, tik) = Message::tick(SPINNER_STEP_MS);
                    self.id = new_id;
                    Message::Redraw.and(tik)
                } else {
                    Message::Noop
                }
            },
            _ => Message::Noop,
        }
    }

    fn help(&self) -> (r: Option<String>)
        ensures
            r is None,
    {
        None
    }

    fn set_focus(&mut self, focused: FocusState)
        ensures
            *final(self) == *old(self),
    {
    }
}

} // verus!
