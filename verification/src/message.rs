use vstd::prelude::*;

use crate::error::Error;
use crate::key::KeyInput;

verus! {

broadcast use vstd::std_specs::vec::axiom_vec_index_decreases;

/// A process-unique identifier minted when a timer message is created.
/// A later `Tok` is only meaningful if its token matches the most
/// recently minted token held by the originating state.
#[derive(Debug, Clone, Copy, PartialEq, Eq, Structural)]
pub struct TimerToken {
    pub hi: u64,
    pub lo: u64,
}

/// The closed set of events and commands that flow through the runtime.
///
/// `Batch` members execute concurrently and independently; `Sequence`
/// members execute strictly in order.  `Noop` is the identity element of
/// both compositions.
#[derive(Debug)]
pub enum Message {
    /// Does nothing, but can be used as a dummy to chain start to commands
    Noop,
    /// Signals the application to exit
    Quit,
    /// Signals a quit for a sub-screen or dialog
    Dismiss,
    /// Simple affirmative response
    Yes,
    /// Simple negative response
    No,
    /// Signals the application to redraw the UI, jumping the event queue
    Redraw,
    /// An error occurred
    Error(Error),
    /// Dismiss an error
    DismissError,
    /// A fatal error that should exit the application
    ErrorFatal(Error),
    /// Terminal resize event
    Resize(usize, usize),
    /// A key was pressed
    KeyPress(KeyInput),
    /// A choice was made from a list of options
    Choice(usize),
    /// Timer start: after the given number of milliseconds a `Tok`
    /// carrying the same token is fed back into the channel.
    Tik(TimerToken, u64),
    /// Timer expiry notice
    Tok(TimerToken),
    /// Execute all contained messages in parallel
    Batch(Vec<Message>),
    /// Execute all contained messages in sequence
    Sequence(Vec<Message>),
    /// Shell command input
    ShellCommand(Vec<String>),
    /// Captured standard output of a shell command
    ShellCommandOutput(String),
}

impl Default for Message {
    fn default() -> (r: Self)
        ensures
            r == Message::Noop,
    {
        Message::Noop
    }
}

/// Structural equality on messages, comparing the contents of the
/// composite variants element by element.  Two messages built from the
/// same parts satisfy it even when their backing vectors are distinct
/// allocations.
pub open spec fn same_message(a: Message, b: Message) -> bool
    decreases a,
{
    match (a, b) {
        (Message::Batch(x), Message::Batch(y)) => x@.len() == y@.len() && (forall|i: int|
            0 <= i < x@.len() ==> same_message(#[trigger] x[i], y[i])),
        (Message::Sequence(x), Message::Sequence(y)) => x@.len() == y@.len() && (forall|i: int|
            0 <= i < x@.len() ==> same_message(#[trigger] x[i], y[i])),
        (Message::ShellCommand(x), Message::ShellCommand(y)) => x@ == y@,
        _ => a == b,
    }
}

/// What parallel composition promises: `r` is the result of combining
/// `a` and `b` into one batch.  `Noop` is the identity on either side,
/// and a batch on either side is appended to, never nested.
pub open spec fn combined_parallel(a: Message, b: Message, r: Message) -> bool {
    if b is Noop {
        r == a
    } else if a is Noop {
        r == b
    } else {
        match (a, b) {
            (Message::Batch(x), Message::Batch(y)) => r matches Message::Batch(v) && v@ == x@
                + y@,
            (Message::Batch(x), _) => r matches Message::Batch(v) && v@ == x@.push(b),
            (_, Message::Batch(y)) => r matches Message::Batch(v) && v@ == seq![a] + y@,
            _ => r matches Message::Batch(v) && v@ == seq![a, b],
        }
    }
}

/// What sequential composition promises, with `Sequence` in place of
/// `Batch`.
pub open spec fn combined_sequential(a: Message, b: Message, r: Message) -> bool {
    if b is Noop {
        r == a
    } else if a is Noop {
        r == b
    } else {
        match (a, b) {
            (Message::Sequence(x), Message::Sequence(y)) => r matches Message::Sequence(v) && v@
                == x@ + y@,
            (Message::Sequence(x), _) => r matches Message::Sequence(v) && v@ == x@.push(b),
            (_, Message::Sequence(y)) => r matches Message::Sequence(v) && v@ == seq![a] + y@,
            _ => r matches Message::Sequence(v) && v@ == seq![a, b],
        }
    }
}

/// The asynchronous work a single message calls for, as decided by
/// `Message::plan`.  The scheduler performs the action and feeds any
/// produced message back into the dispatch channel.
#[derive(Debug)]
pub enum CommandAction {
    /// Produce nothing.
    Nothing,
    /// Suspend for the given number of milliseconds, then produce a
    /// `Tok` carrying the token.
    Sleep(TimerToken, u64),
    /// Run an external process with the first element as the program
    /// and the rest as its arguments, capturing standard output.
    RunShell(Vec<String>),
    /// Feed the message itself back into the channel unchanged.
    Forward(Message),
    /// Plan and perform each member in order, sending each produced
    /// message before the next member starts.
    InOrder(Vec<Message>),
    /// Plan and perform every member independently and concurrently.
    Concurrent(Vec<Message>),
}

impl Message {
    /// Decide the asynchronous work this message calls for.  Leaf
    /// messages other than `Noop`, timer starts and shell requests are
    /// simply forwarded back into the channel as they are.
    pub fn plan(self) -> (r: CommandAction)
        ensures
            self is Noop ==> r is Nothing,
            self matches Message::Tik(id, ms) ==> r == CommandAction::Sleep(id, ms),
            self matches Message::ShellCommand(argv) ==> r == CommandAction::RunShell(argv),
            self matches Message::Sequence(msgs) ==> r == CommandAction::InOrder(msgs),
            self matches Message::Batch(msgs) ==> r == CommandAction::Concurrent(msgs),
            !(self is Noop) && !(self is Tik) && !(self is ShellCommand) && !(self is Sequence)
                && !(self is Batch) ==> r == CommandAction::Forward(self),
    {
        match self {
            Message::Noop => CommandAction::Nothing,
            Message::Tik(id, ms) => CommandAction::Sleep(id, ms),
            Message::ShellCommand(argv) => CommandAction::RunShell(argv),
            Message::Sequence(msgs) => CommandAction::InOrder(msgs),
            Message::Batch(msgs) => CommandAction::Concurrent(msgs),
            _ => CommandAction::Forward(self),
        }
    }

    /// Turn the outcome of a finished external process into the message
    /// fed back into the channel: the captured standard output on
    /// success, a recoverable error carrying the launch failure's text
    /// otherwise.
    pub fn shell_outcome(outcome: core::result::Result<String, String>) -> (r: Message)
        ensures
            outcome matches Ok(text) ==> r == Message::ShellCommandOutput(text),
            outcome matches Err(cause) ==> r == Message::Error(Error::IOError(cause)),
    {
        match outcome {
            Ok(text) => Message::ShellCommandOutput(text),
            Err(cause) => Message::Error(Error::IOError(cause)),
        }
    }

    /// Wrap an error value in a message.
    pub fn error(err: Error) -> (r: Message)
        ensures
            r == Message::Error(err),
    {
        Message::Error(err)
    }

    /// Wrap an error text in a message.
    pub fn errorf(text: String) -> (r: Message)
        ensures
            r == Message::Error(Error::OwnedError(text)),
    {
        Message::Error(Error::OwnedError(text))
    }

    /// Wrap a choice index in a message.
    pub fn choice(choice: usize) -> (r: Message)
        ensures
            r == Message::Choice(choice),
    {
        Message::Choice(choice)
    }

    /// Mint a fresh timer token and build the timer-start message that
    /// carries it.  The caller keeps the token to recognise the matching
    /// `Tok` later and to ignore stale ones.
    pub fn tick(duration_ms: u64) -> (r: (TimerToken, Message))
        ensures
            r.1 == Message::Tik(r.0, duration_ms),
    {
        let id = fresh_token();
        (id, Message::Tik(id, duration_ms))
    }

    /// Return the pre-built fallback, whatever this message holds.
    pub fn or(self, next: Message) -> (r: Message)
        ensures
            r == next,
    {
        match self {
            Message::Noop => next,
            _ => next,
        }
    }

    /// Try the fallback only when this message is `Noop`: the mechanism
    /// composite models use to try each handler in priority order until
    /// one produces a non-trivial message.
    pub fn or_else<F: FnOnce() -> Message>(self, next: F) -> (r: Message)
        requires
            self is Noop ==> call_requires(next, ()),
        ensures
            self !is Noop ==> r == self,
            self is Noop ==> call_ensures(next, (), r),
    {
        match self {
            Message::Noop => next(),
            _ => self,
        }
    }

    /// Combine two messages for parallel execution, flattening into an
    /// existing batch on either side rather than nesting.
    pub fn and(self, next: Message) -> (r: Message)
        ensures
            combined_parallel(self, next, r),
    {
        if matches!(next, Message::Noop) {
            return self;
        }
        if matches!(self, Message::Noop) {
            return next;
        }
        match (self, next) {
            (Message::Batch(mut x), Message::Batch(mut y)) => {
                x.append(&mut y);
                Message::Batch(x)
            },
            (Message::Batch(mut x), b) => {
                x.push(b);
                Message::Batch(x)
            },
            (a, Message::Batch(y)) => {
                let mut v: Vec<Message> = Vec::new();
                v.push(a);
                let mut rest = y;
                v.append(&mut rest);
                proof {
                    assert(v@ =~= seq![a] + y@);
                }
                Message::Batch(v)
            },
            (a, b) => {
                let mut v: Vec<Message> = Vec::new();
                v.push(a);
                v.push(b);
                proof {
                    assert(v@ =~= seq![a, b]);
                }
                Message::Batch(v)
            },
        }
    }

    /// Combine two messages for ordered execution, flattening into an
    /// existing sequence on either side rather than nesting.
    pub fn then(self, next: Message) -> (r: Message)
        ensures
            combined_sequential(self, next, r),
    {
        if matches!(next, Message::Noop) {
            return self;
        }
        if matches!(self, Message::Noop) {
            return next;
        }
        match (self, next) {
            (Message::Sequence(mut x), Message::Sequence(mut y)) => {
                x.append(&mut y);
                Message::Sequence(x)
            },
            (Message::Sequence(mut x), b) => {
                x.push(b);
                Message::Sequence(x)
            },
            (a, Message::Sequence(y)) => {
                let mut v: Vec<Message> = Vec::new();
                v.push(a);
                let mut rest = y;
                v.append(&mut rest);
                proof {
                    assert(v@ =~= seq![a] + y@);
                }
                Message::Sequence(v)
            },
            (a, b) => {
                let mut v: Vec<Message> = Vec::new();
                v.push(a);
                v.push(b);
                proof {
                    assert(v@ =~= seq![a, b]);
                }
                Message::Sequence(v)
            },
        }
    }

    /// A copy of this message: the same value for every leaf, and for
    /// the composite variants a fresh vector holding copies of the same
    /// members.
    pub fn duplicate(&self) -> (r: Message)
        ensures
            same_message(*self, r),
        decreases *self,
    {
        match self {
            Message::Noop => Message::Noop,
            Message::Quit => Message::Quit,
            Message::Dismiss => Message::Dismiss,
            Message::Yes => Message::Yes,
            Message::No => Message::No,
            Message::Redraw => Message::Redraw,
            Message::Error(e) => Message::Error(e.duplicate()),
            Message::DismissError => Message::DismissError,
            Message::ErrorFatal(e) => Message::ErrorFatal(e.duplicate()),
            Message::Resize(w, h) => Message::Resize(*w, *h),
            Message::KeyPress(k) => Message::KeyPress(*k),
            Message::Choice(i) => Message::Choice(*i),
            Message::Tik(t, d) => Message::Tik(*t, *d),
            Message::Tok(t) => Message::Tok(*t),
            Message::Batch(v) => {
                let mut out: Vec<Message> = Vec::new();
                let mut i: usize = 0;
                while i < v.len()
                    invariant
                        *self == Message::Batch(*v),
                        i <= v.len(),
                        out@.len() == i as int,
                        forall|j: int| 0 <= j < i as int ==> same_message(v[j], #[trigger] out[j]),
                    decreases v.len() - i,
                {
                    proof {
                        assert(decreases_to!(*self => (*self)->Batch_0));
                        assert(decreases_to!(*v => v@));
                        assert(decreases_to!(v@ => v@[i as int]));
                        assert(decreases_to!(*self => v@[i as int]));
                    }
                    out.push(v[i].duplicate());
                    i = i + 1;
                }
                Message::Batch(out)
            },
            Message::Sequence(v) => {
                let mut out: Vec<Message> = Vec::new();
                let mut i: usize = 0;
                while i < v.len()
                    invariant
                        *self == Message::Sequence(*v),
                        i <= v.len(),
                        out@.len() == i as int,
                        forall|j: int| 0 <= j < i as int ==> same_message(v[j], #[trigger] out[j]),
                    decreases v.len() - i,
                {
                    proof {
                        assert(decreases_to!(*self => (*self)->Sequence_0));
                        assert(decreases_to!(*v => v@));
                        assert(decreases_to!(v@ => v@[i as int]));
                        assert(decreases_to!(*self => v@[i as int]));
                    }
                    out.push(v[i].duplicate());
                    i = i + 1;
                }
                Message::Sequence(out)
            },
            Message::ShellCommand(v) => {
                let out = v.clone();
                proof {
                    assert(out@ =~= v@);
                }
                Message::ShellCommand(out)
            },
            Message::ShellCommandOutput(s) => Message::ShellCommandOutput(s.clone()),
        }
    }

    /// `None` exactly for `Noop`, `Some(self)` for everything else.
    pub fn into_option(self) -> (r: Option<Message>)
        ensures
            self is Noop <==> r is None,
            r matches Some(m) ==> m == self,
    {
        match self {
            Message::Noop => None,
            _ => Some(self),
        }
    }
}

/// Relies on uuid::Uuid::new_v4 for a freshly generated random
/// identifier; the two halves of its 128 bits become the token.  Nothing
/// is promised of the result: token equality is decided by the state
/// that stored the token, never assumed here.
#[verifier::external_body]
fn fresh_token() -> (r: TimerToken)
{
    let (hi, lo) = uuid::Uuid::new_v4().as_u64_pair();
    TimerToken { hi, lo }
}

/// For all messages, combining `Noop` in parallel with a message yields
/// that message back.
pub proof fn lemma_parallel_identity(m: Message, r: Message)
    requires
        combined_parallel(Message::Noop, m, r),
    ensures
        r == m,
{
}

/// For all messages, combining `Noop` in sequence with a message yields
/// that message back.
pub proof fn lemma_sequential_identity(m: Message, r: Message)
    requires
        combined_sequential(Message::Noop, m, r),
    ensures
        r == m,
{
}

/// A batch whose members are not themselves batches.
pub open spec fn flat_parallel(m: Message) -> bool {
    m matches Message::Batch(v) ==> forall|i: int| 0 <= i < v@.len() ==> !(#[trigger] v[i] is Batch)
}

/// A sequence whose members are not themselves sequences.
pub open spec fn flat_sequential(m: Message) -> bool {
    m matches Message::Sequence(v) ==> forall|i: int|
        0 <= i < v@.len() ==> !(#[trigger] v[i] is Sequence)
}

/// Parallel composition never nests one batch directly inside another:
/// if neither input holds a directly nested batch, neither does the
/// combination.
pub proof fn lemma_parallel_flat(a: Message, b: Message, r: Message)
    requires
        flat_parallel(a),
        flat_parallel(b),
        combined_parallel(a, b, r),
    ensures
        flat_parallel(r),
{
    if !(b is Noop) && !(a is Noop) {
        match r {
            Message::Batch(v) => {
                assert forall|i: int| 0 <= i < v@.len() implies !(#[trigger] v[i] is Batch) by {
                    match (a, b) {
                        (Message::Batch(x), Message::Batch(y)) => {
                            assert(v@ == x@ + y@);
                            if i < x@.len() {
                                assert(v[i] == x[i]);
                            } else {
                                assert(v[i] == y[i - x@.len()]);
                            }
                        },
                        (Message::Batch(x), _) => {
                            assert(v@ == x@.push(b));
                        },
                        (_, Message::Batch(y)) => {
                            assert(v@ == seq![a] + y@);
                            if i > 0 {
                                assert(v[i] == y[i - 1]);
                            }
                        },
                        _ => {
                            assert(v@ == seq![a, b]);
                        },
                    }
                }
            },
            _ => {},
        }
    }
}

/// Sequential composition never nests one sequence directly inside
/// another: if neither input holds a directly nested sequence, neither
/// does the combination.
pub proof fn lemma_sequential_flat(a: Message, b: Message, r: Message)
    requires
        flat_sequential(a),
        flat_sequential(b),
        combined_sequential(a, b, r),
    ensures
        flat_sequential(r),
{
    if !(b is Noop) && !(a is Noop) {
        match r {
            Message::Sequence(v) => {
                assert forall|i: int| 0 <= i < v@.len() implies !(#[trigger] v[i] is Sequence) by {
                    match (a, b) {
                        (Message::Sequence(x), Message::Sequence(y)) => {
                            assert(v@ == x@ + y@);
                            if i < x@.len() {
                                assert(v[i] == x[i]);
                            } else {
                                assert(v[i] == y[i - x@.len()]);
                            }
                        },
                        (Message::Sequence(x), _) => {
                            assert(v@ == x@.push(b));
                        },
                        (_, Message::Sequence(y)) => {
                            assert(v@ == seq![a] + y@);
                            if i > 0 {
                                assert(v[i] == y[i - 1]);
                            }
                        },
                        _ => {
                            assert(v@ == seq![a, b]);
                        },
                    }
                }
            },
            _ => {},
        }
    }
}

} // verus!
