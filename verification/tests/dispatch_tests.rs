use raccacoonie::error::Error;
use raccacoonie::key::{KeyCode, KeyInput};
use raccacoonie::mainlooper::{
    classify_event, dispatch_step, drain_batch, poll_failure, DrainOutcome, InputEvent,
    PollAction, RecvOutcome, StepResult, EVENT_BATCH_SIZE,
};
use raccacoonie::message::Message;
use raccacoonie::styles::FocusState;
use raccacoonie::Model;

/// A model that records every message it is asked to apply.
struct Recorder {
    applied: Vec<Message>,
}

impl Recorder {
    fn new() -> Self {
        Recorder { applied: Vec::new() }
    }
}

impl Model for Recorder {
    fn init(&mut self) -> Message {
        Message::Noop
    }

    fn update(&mut self, msg: Message) -> Message {
        self.applied.push(msg);
        Message::Noop
    }

    fn help(&self) -> Option<String> {
        None
    }

    fn set_focus(&mut self, _focused: FocusState) {}
}

#[test]
fn batch_cap_applies_exactly_twenty() {
    // 25 pending non-Noop, non-control messages
    let (tx, mut rx) = tokio::sync::mpsc::channel::<Message>(25);
    for i in 0..25usize {
        tx.try_send(Message::Choice(i)).unwrap();
    }
    let mut model = Recorder::new();
    let (outcome, produced) = drain_batch(&mut rx, &mut model);
    // exactly the batch cap is applied before a forced redraw
    assert!(matches!(outcome, DrainOutcome::DrawModel));
    assert_eq!(model.applied.len(), EVENT_BATCH_SIZE);
    assert_eq!(model.applied.len(), 20);
    assert!(produced.len() <= EVENT_BATCH_SIZE);
    // the remaining five are still queued
    let mut left = 0;
    while rx.try_recv().is_ok() {
        left += 1;
    }
    assert_eq!(left, 5);
}

#[test]
fn quit_discards_everything_behind_it() {
    let (tx, mut rx) = tokio::sync::mpsc::channel::<Message>(10);
    tx.try_send(Message::Quit).unwrap();
    for i in 0..5usize {
        tx.try_send(Message::Choice(i)).unwrap();
    }
    let mut model = Recorder::new();
    let (outcome, produced) = drain_batch(&mut rx, &mut model);
    assert!(matches!(outcome, DrainOutcome::EndProgram));
    // none of the five queued messages reached the model
    assert_eq!(model.applied.len(), 0);
    assert!(produced.is_empty());
}

#[test]
fn empty_channel_proceeds_to_redraw() {
    let (_tx, mut rx) = tokio::sync::mpsc::channel::<Message>(4);
    let mut model = Recorder::new();
    let (outcome, produced) = drain_batch(&mut rx, &mut model);
    assert!(matches!(outcome, DrainOutcome::DrawModel));
    assert_eq!(model.applied.len(), 0);
    assert!(produced.is_empty());
}

#[test]
fn redraw_short_circuits_the_batch() {
    let (tx, mut rx) = tokio::sync::mpsc::channel::<Message>(10);
    tx.try_send(Message::Choice(1)).unwrap();
    tx.try_send(Message::Redraw).unwrap();
    tx.try_send(Message::Choice(2)).unwrap();
    let mut model = Recorder::new();
    let (outcome, _) = drain_batch(&mut rx, &mut model);
    assert!(matches!(outcome, DrainOutcome::DrawModel));
    assert_eq!(model.applied.len(), 1);
}

#[test]
fn noop_is_discarded_but_counted() {
    let (tx, mut rx) = tokio::sync::mpsc::channel::<Message>(25);
    // ten no-ops and then fifteen real messages: the cap counts both,
    // so only ten of the real ones are applied
    for _ in 0..10usize {
        tx.try_send(Message::Noop).unwrap();
    }
    for i in 0..15usize {
        tx.try_send(Message::Choice(i)).unwrap();
    }
    let mut model = Recorder::new();
    let (outcome, _) = drain_batch(&mut rx, &mut model);
    assert!(matches!(outcome, DrainOutcome::DrawModel));
    assert_eq!(model.applied.len(), 10);
}

#[test]
fn disconnection_is_fatal() {
    let (tx, mut rx) = tokio::sync::mpsc::channel::<Message>(4);
    drop(tx);
    let mut model = Recorder::new();
    let (outcome, _) = drain_batch(&mut rx, &mut model);
    match outcome {
        DrainOutcome::Fatal(Error::TerminalError(t)) => {
            assert_eq!(t, "Premature disconnection of event channel")
        }
        other => panic!("expected a fatal outcome, got {:?}", other),
    }
}

#[test]
fn fatal_error_message_aborts_with_its_cause() {
    let mut model = Recorder::new();
    let r = dispatch_step(
        &mut model,
        RecvOutcome::Got(Message::ErrorFatal(Error::OwnedError("dead".to_string()))),
    );
    match r {
        StepResult::Stop(DrainOutcome::Fatal(Error::OwnedError(t))) => assert_eq!(t, "dead"),
        other => panic!("expected a fatal stop, got {:?}", other),
    }
}

#[test]
fn ordinary_message_goes_through_update() {
    let mut model = Recorder::new();
    let r = dispatch_step(&mut model, RecvOutcome::Got(Message::Choice(7)));
    assert!(matches!(r, StepResult::Continue(Some(_))));
    assert_eq!(model.applied.len(), 1);
    assert!(matches!(model.applied[0], Message::Choice(7)));
}

#[test]
fn classify_forwards_keys_and_resizes() {
    let k = KeyInput::plain(KeyCode::Char('x'));
    match classify_event(InputEvent::Key(k)) {
        PollAction::Send(Message::KeyPress(kk)) => assert_eq!(kk, k),
        other => panic!("expected a forwarded key, got {:?}", other),
    }
    match classify_event(InputEvent::Resize(80, 24)) {
        PollAction::Send(Message::Resize(80, 24)) => {}
        other => panic!("expected a forwarded resize, got {:?}", other),
    }
    assert!(matches!(
        classify_event(InputEvent::Other),
        PollAction::Ignore
    ));
}

#[test]
fn interrupt_chord_overrides_everything() {
    let chord = KeyInput { code: KeyCode::Char('c'), ctrl: true, alt: false, shift: false };
    assert!(matches!(
        classify_event(InputEvent::Key(chord)),
        PollAction::SendAndStop(Message::Quit)
    ));
    // control with another key is an ordinary key press
    let other = KeyInput { code: KeyCode::Char('d'), ctrl: true, alt: false, shift: false };
    assert!(matches!(
        classify_event(InputEvent::Key(other)),
        PollAction::Send(Message::KeyPress(_))
    ));
    // a plain 'c' is an ordinary key press
    let plain = KeyInput::plain(KeyCode::Char('c'));
    assert!(matches!(
        classify_event(InputEvent::Key(plain)),
        PollAction::Send(Message::KeyPress(_))
    ));
}

#[test]
fn read_failure_is_fatal_and_stops_polling() {
    match classify_event(InputEvent::ReadError("broken pipe".to_string())) {
        PollAction::SendAndStop(Message::ErrorFatal(Error::IOError(t))) => {
            assert_eq!(t, "broken pipe")
        }
        other => panic!("expected a fatal stop, got {:?}", other),
    }
}

#[test]
fn poll_failure_is_recoverable() {
    match poll_failure("timer broke".to_string()) {
        Message::Error(Error::IOError(t)) => assert_eq!(t, "timer broke"),
        other => panic!("expected a recoverable error, got {:?}", other),
    }
}
