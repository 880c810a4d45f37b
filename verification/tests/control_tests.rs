use raccacoonie::button::{Button, ButtonBar};
use raccacoonie::error::{Error, LoggingErrorKind};
use raccacoonie::input_control::InputControl;
use raccacoonie::key::{KeyCode, KeyInput};
use raccacoonie::message::Message;
use raccacoonie::popup::Popup;
use raccacoonie::spinner::Spinner;
use raccacoonie::styles::FocusState;
use raccacoonie::Model;

fn key(code: KeyCode) -> Message {
    Message::KeyPress(KeyInput::plain(code))
}

#[test]
fn input_control_applies_key_presses() {
    let mut c = InputControl::from_value("ab");
    assert_eq!(c.value(), "ab");
    let r = c.update(key(KeyCode::Char('c')));
    assert!(matches!(r, Message::Redraw));
    // the editor really edited: the value did not come back unchanged
    assert_eq!(c.value(), "abc");
    c.update(key(KeyCode::Backspace));
    c.update(key(KeyCode::Backspace));
    assert_eq!(c.value(), "a");
}

#[test]
fn input_control_set_value_replaces_text() {
    let mut c = InputControl::from_label_and_value("Name", "old");
    c.set_value("new");
    assert_eq!(c.value(), "new");
    let empty = InputControl::from_label("Name");
    assert_eq!(empty.value(), "");
}

#[test]
fn input_control_ignores_other_messages() {
    let mut c = InputControl::from_value("x");
    assert!(matches!(c.update(Message::Redraw), Message::Noop));
    assert_eq!(c.value(), "x");
}

#[test]
fn button_fires_on_enter_and_space() {
    let mut b = Button::new("OK", Message::Yes);
    assert!(matches!(b.update(key(KeyCode::Enter)), Message::Yes));
    assert!(matches!(b.update(key(KeyCode::Char(' '))), Message::Yes));
    assert!(matches!(b.update(key(KeyCode::Char('x'))), Message::Noop));
    assert!(matches!(b.update(Message::Redraw), Message::Noop));
}

#[test]
fn button_help_names_the_label() {
    let b = Button::new("Send", Message::Yes);
    assert_eq!(
        b.help(),
        Some("Press ENTER or SPACE to activate the Send button".to_string())
    );
}

#[test]
fn button_bar_routes_to_the_focused_button() {
    let mut bar = ButtonBar::yes_no();
    assert!(matches!(bar.update(key(KeyCode::Enter)), Message::Yes));
    bar.set_focus(1);
    assert!(matches!(bar.update(key(KeyCode::Enter)), Message::No));
    // out-of-range focus requests are ignored
    bar.set_focus(7);
    assert!(matches!(bar.update(key(KeyCode::Enter)), Message::No));
}

#[test]
fn blurred_button_bar_swallows_input() {
    let mut bar = ButtonBar::ok_cancel();
    bar.blur();
    assert!(matches!(bar.update(key(KeyCode::Enter)), Message::Noop));
    assert_eq!(bar.help(), Some("No button active".to_string()));
}

#[test]
fn ok_quit_second_button_quits() {
    let mut bar = ButtonBar::ok_quit();
    bar.set_focus(1);
    assert!(matches!(bar.update(key(KeyCode::Enter)), Message::Quit));
}

#[test]
fn popup_quits_on_any_key() {
    let mut p = Popup::new("hello".to_string());
    assert_eq!(p.text(), "hello");
    assert!(matches!(p.update(key(KeyCode::Char('q'))), Message::Quit));
    assert!(matches!(p.update(Message::Redraw), Message::Noop));
}

#[test]
fn spinner_advances_only_on_its_current_token() {
    let mut s = Spinner::new();
    assert_eq!(s.symbol(), '|');
    let first = s.init();
    let first_token = match first {
        Message::Tik(id, 100) => id,
        other => panic!("expected a timer start, got {:?}", other),
    };
    // the matching expiry advances the frame and re-arms the timer
    let r = s.update(Message::Tok(first_token));
    let second_token = match r {
        Message::Batch(v) => {
            assert_eq!(v.len(), 2);
            assert!(matches!(v[0], Message::Redraw));
            match v[1] {
                Message::Tik(id, 100) => id,
                ref other => panic!("expected a re-arm, got {:?}", other),
            }
        }
        other => panic!("expected a batch, got {:?}", other),
    };
    assert_eq!(s.symbol(), '/');
    assert_ne!(first_token, second_token);
    // delivering the stale first token after the second was issued is
    // ignored: no redraw, no re-arm, no frame change
    let stale = s.update(Message::Tok(first_token));
    assert!(matches!(stale, Message::Noop));
    assert_eq!(s.symbol(), '/');
    // the current token still works
    let r = s.update(Message::Tok(second_token));
    assert!(matches!(r, Message::Batch(_)));
    assert_eq!(s.symbol(), '-');
}

#[test]
fn spinner_wraps_around_its_frames() {
    let mut s = Spinner::new_from_iter(vec!['a', 'b']);
    let mut token = match s.init() {
        Message::Tik(id, _) => id,
        other => panic!("expected a timer start, got {:?}", other),
    };
    for expected in ['b', 'a', 'b'] {
        token = match s.update(Message::Tok(token)) {
            Message::Batch(v) => match v[1] {
                Message::Tik(id, _) => id,
                ref other => panic!("expected a re-arm, got {:?}", other),
            },
            other => panic!("expected a batch, got {:?}", other),
        };
        assert_eq!(s.symbol(), expected);
    }
}

#[test]
fn spinner_presets_start_at_the_first_frame() {
    assert_eq!(Spinner::circles().symbol(), '\u{25d0}');
    assert_eq!(Spinner::dots().symbol(), '\u{2801}');
    assert_eq!(Spinner::arrows().symbol(), '\u{2190}');
    assert_eq!(Spinner::default().symbol(), '|');
}

#[test]
fn error_messages_carry_their_prefixes() {
    assert_eq!(Error::Error("plain").message(), "plain");
    assert_eq!(Error::OwnedError("owned".to_string()).message(), "owned");
    assert_eq!(
        Error::TerminalError("gone".to_string()).message(),
        "Terminal error: gone"
    );
    assert_eq!(Error::IOError("eof".to_string()).message(), "IO error: eof");
    assert_eq!(
        Error::JSONError("bad".to_string()).message(),
        "Invalid response from command: bad"
    );
    assert_eq!(
        Error::LoggingError(LoggingErrorKind::SetLoggerError, "twice".to_string()).message(),
        "Logging Error (SetLoggerError): twice"
    );
    assert_eq!(
        Error::LoggingError(LoggingErrorKind::ThreadError, "hung".to_string()).message(),
        "Logging Error (ThreadError): hung"
    );
}

#[test]
fn error_conversions_pick_the_right_variant() {
    assert!(matches!(Error::from("static"), Error::Error("static")));
    assert!(matches!(
        Error::from("owned".to_string()),
        Error::OwnedError(_)
    ));
    assert!(matches!(Error::default(), Error::Error("an error occurred")));
}

#[test]
fn option_model_forwards_to_the_inner_model() {
    let mut some: Option<Popup> = Some(Popup::new("hi".to_string()));
    assert!(matches!(
        some.update(key(KeyCode::Enter)),
        Message::Quit
    ));
    assert!(matches!(some.init(), Message::Noop));
    let mut none: Option<Popup> = None;
    assert!(matches!(none.update(key(KeyCode::Enter)), Message::Noop));
    assert!(none.help().is_none());
    none.set_focus(FocusState::Focus);
}
