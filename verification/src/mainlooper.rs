use vstd::prelude::*;
use vstd::string::StringExecFns;

use crate::error::Error;
use crate::key::KeyInput;
use crate::message::Message;
use crate::Model;
use tokio::sync::mpsc::error::TryRecvError;
use tokio::sync::mpsc::Receiver;

verus! {

#[verifier::external_type_specification]
#[verifier::external_body]
#[verifier::reject_recursive_types(T)]
pub struct ExReceiver<T>(Receiver<T>);

/// Force a redraw after processing this many events.  It is also the
/// dispatch channel's capacity, which makes the channel the system's
/// only backpressure mechanism.
pub const EVENT_BATCH_SIZE: usize = 20;

/// What one non-blocking receive on the dispatch channel produced.
#[derive(Debug)]
pub enum RecvOutcome {
    /// A message was pending.
    Got(Message),
    /// Nothing is pending right now.
    Empty,
    /// Every sender is gone: the poller or a command task exited
    /// unexpectedly.
    Disconnected,
}

/// Relies on tokio's Receiver::try_recv, telling its three outcomes
/// apart.  What arrives depends on concurrent senders, so nothing is
/// promised of the outcome.
#[verifier::external_body]
fn try_recv_message(rx: &mut Receiver<Message>) -> (r: RecvOutcome) {
    match rx.try_recv() {
        Ok(m) => RecvOutcome::Got(m),
        Err(TryRecvError::Empty) => RecvOutcome::Empty,
        Err(TryRecvError::Disconnected) => RecvOutcome::Disconnected,
    }
}

/// How a batch drain ends.
#[derive(Debug)]
pub enum DrainOutcome {
    /// Redraw the model and drain again.
    DrawModel,
    /// End the run: a quit was received; pending messages stay unread
    /// and are discarded with the channel.
    EndProgram,
    /// Abort the run with this error, after the caller restores the
    /// terminal.
    Fatal(Error),
}

/// How one received message resolves within a batch.
#[derive(Debug)]
pub enum StepResult {
    /// Keep draining; the model may have produced a message to hand to
    /// the command scheduler.
    Continue(Option<Message>),
    /// Stop draining with this outcome.
    Stop(DrainOutcome),
}

/// The exact resolution rule for one received message: an empty channel
/// or an explicit redraw proceeds to drawing, quit ends the run, a
/// fatal error or a disconnected channel aborts it, a no-op is
/// discarded, and everything else goes through the model's update,
/// whose result is handed back for scheduling.  Fatality is decided by
/// the message tag alone.
pub fn dispatch_step<M: Model>(model: &mut M, received: RecvOutcome) -> (r: StepResult)
    ensures
        received is Empty ==> r == StepResult::Stop(DrainOutcome::DrawModel),
        received is Disconnected ==> (r matches StepResult::Stop(o) && o matches
            DrainOutcome::Fatal(e) && e matches Error::TerminalError(t) && t@
            == "Premature disconnection of event channel"@),
        received matches RecvOutcome::Got(m) ==> match m {
            Message::Quit => r == StepResult::Stop(DrainOutcome::EndProgram),
            Message::ErrorFatal(e) => r == StepResult::Stop(DrainOutcome::Fatal(e)),
            Message::Redraw => r == StepResult::Stop(DrainOutcome::DrawModel),
            Message::Noop => r == StepResult::Continue(None),
            _ => r matches StepResult::Continue(s) && s is Some,
        },
{
    match received {
        RecvOutcome::Empty => StepResult::Stop(DrainOutcome::DrawModel),
        RecvOutcome::Disconnected => StepResult::Stop(
            DrainOutcome::Fatal(
                Error::TerminalError(
                    String::from_str("Premature disconnection of event channel"),
                ),
            ),
        ),
        RecvOutcome::Got(m) => match m {
            Message::Quit => StepResult::Stop(DrainOutcome::EndProgram),
            Message::ErrorFatal(e) => StepResult::Stop(DrainOutcome::Fatal(e)),
            Message::Redraw => StepResult::Stop(DrainOutcome::DrawModel),
            Message::Noop => StepResult::Continue(None),
            other => StepResult::Continue(Some(model.update(other))),
        },
    }
}

/// Drain up to `EVENT_BATCH_SIZE` pending messages without blocking,
/// applying each by the resolution rule, and say how the batch ended.
/// The second component carries the messages the model produced, in
/// order, for the caller to hand to the command scheduler; it never
/// holds more than the batch cap.  If the cap is exhausted without an
/// early stop, a redraw is forced anyway, so an input storm cannot
/// starve the screen.
pub fn drain_batch<M: Model>(rx: &mut Receiver<Message>, model: &mut M) -> (r: (
    DrainOutcome,
    Vec<Message>,
))
    ensures
        r.1@.len() <= EVENT_BATCH_SIZE,
{
    let mut produced: Vec<Message> = Vec::new();
    let mut count: usize = 0;
    while count < EVENT_BATCH_SIZE
        invariant
            count <= EVENT_BATCH_SIZE,
            produced@.len() <= count,
        decreases EVENT_BATCH_SIZE - count,
    {
        let received = try_recv_message(rx);
        match dispatch_step(model, received) {
            StepResult::Stop(outcome) => {
                return (outcome, produced);
            },
            StepResult::Continue(Some(m)) => {
                produced.push(m);
            },
            StepResult::Continue(None) => {},
        }
        count = count + 1;
    }
    (DrainOutcome::DrawModel, produced)
}

/// A raw happening at the terminal, as the input poller reads it.
#[derive(Debug)]
pub enum InputEvent {
    /// A key was pressed.
    Key(KeyInput),
    /// The terminal was resized to this width and height.
    Resize(usize, usize),
    /// Reading the next event failed with this cause.
    ReadError(String),
    /// Some other happening the runtime does not react to.
    Other,
}

/// What the poller does with one raw event.
#[derive(Debug)]
pub enum PollAction {
    /// Forward this message and keep polling.
    Send(Message),
    /// Forward this message, then stop polling for good.
    SendAndStop(Message),
    /// Ignore the event and keep polling.
    Ignore,
}

/// The poller's exact classification rule: the process-interrupt chord
/// ends the run no matter what the model wants, any other key press and
/// any resize are forwarded, a read failure is fatal and stops the
/// poller, and unrecognised events are ignored.
pub fn classify_event(ev: InputEvent) -> (r: PollAction)
    ensures
        ev matches InputEvent::Key(k) ==> (if k.spec_is_quit_chord() {
            r == PollAction::SendAndStop(Message::Quit)
        } else {
            r == PollAction::Send(Message::KeyPress(k))
        }),
        ev matches InputEvent::Resize(w, h) ==> r == PollAction::Send(Message::Resize(w, h)),
        ev matches InputEvent::ReadError(t) ==> r == PollAction::SendAndStop(
            Message::ErrorFatal(Error::IOError(t)),
        ),
        ev is Other ==> r == PollAction::Ignore,
{
    match ev {
        InputEvent::Key(k) => {
            if k.is_quit_chord() {
                PollAction::SendAndStop(Message::Quit)
            } else {
                PollAction::Send(Message::KeyPress(k))
            }
        },
        InputEvent::Resize(w, h) => PollAction::Send(Message::Resize(w, h)),
        InputEvent::ReadError(t) => PollAction::SendAndStop(
            Message::ErrorFatal(Error::IOError(t)),
        ),
        InputEvent::Other => PollAction::Ignore,
    }
}

/// The message the poller forwards when waiting for input availability
/// itself fails, before it stops polling.  Unlike a read failure this
/// one is recoverable: the model decides how to show it.
pub fn poll_failure(cause: String) -> (r: Message)
    ensures
        r == Message::Error(Error::IOError(cause)),
{
    Message::Error(Error::IOError(cause))
}

} // verus!
