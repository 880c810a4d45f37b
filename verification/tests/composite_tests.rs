use raccacoonie::key::{KeyCode, KeyInput};
use raccacoonie::listview::ListView;
use raccacoonie::message::Message;
use raccacoonie::styles::FocusState;
use raccacoonie::tabcontroller::TabController;
use raccacoonie::Model;

fn key(code: KeyCode) -> Message {
    Message::KeyPress(KeyInput::plain(code))
}

/// A two-pane form: a tab ring decides which list receives input, and
/// the handler chain tries the ring first and the focused list second.
struct Picker {
    tabs: TabController,
    left: ListView,
    right: ListView,
    chosen_from: Option<(usize, String)>,
}

impl Picker {
    fn new() -> Self {
        Picker {
            tabs: TabController::new(2),
            left: ListView::new("Letters", vec!["alpha".into(), "beta".into()]),
            right: ListView::new("Numbers", vec!["one".into(), "two".into(), "three".into()]),
            chosen_from: None,
        }
    }

    fn update_actions(&mut self, msg: &Message) -> Message {
        match *msg {
            Message::Choice(_) => {
                let pane = self.tabs.get_current_index();
                let picked = match pane {
                    0 => self.left.chosen().clone(),
                    _ => self.right.chosen().clone(),
                };
                match picked {
                    Some(item) => {
                        self.chosen_from = Some((pane, item));
                        Message::Redraw
                    }
                    None => Message::Noop,
                }
            }
            _ => Message::Noop,
        }
    }

    fn update_controls(&mut self, msg: Message) -> Message {
        match self.tabs.get_current_index() {
            0 => self.left.update(msg),
            _ => self.right.update(msg),
        }
    }
}

impl Model for Picker {
    fn init(&mut self) -> Message {
        self.left.init().and(self.right.init())
    }

    fn update(&mut self, msg: Message) -> Message {
        self.tabs
            .update(&msg)
            .or_else(|| self.update_actions(&msg))
            .or_else(|| self.update_controls(msg))
    }

    fn help(&self) -> Option<String> {
        None
    }

    fn set_focus(&mut self, _focused: FocusState) {}
}

#[test]
fn tab_key_is_claimed_before_the_lists() {
    let mut form = Picker::new();
    form.init();
    assert_eq!(form.tabs.get_current_index(), 0);
    let r = form.update(key(KeyCode::Tab));
    assert!(matches!(r, Message::Redraw));
    assert_eq!(form.tabs.get_current_index(), 1);
    // the lists never saw the tab key: their selections are untouched
    assert_eq!(form.left.selected_index(), Some(0));
    assert_eq!(form.right.selected_index(), Some(0));
}

#[test]
fn unclaimed_keys_fall_through_to_the_focused_pane() {
    let mut form = Picker::new();
    form.init();
    form.update(key(KeyCode::Down));
    assert_eq!(form.left.selected_index(), Some(1));
    assert_eq!(form.right.selected_index(), Some(0));
    form.update(key(KeyCode::Tab));
    form.update(key(KeyCode::Down));
    assert_eq!(form.left.selected_index(), Some(1));
    assert_eq!(form.right.selected_index(), Some(1));
}

#[test]
fn choices_are_routed_by_the_ring_and_captured() {
    let mut form = Picker::new();
    form.init();
    form.update(key(KeyCode::Tab));
    form.update(key(KeyCode::Down));
    let r = form.update(key(KeyCode::Enter));
    // the list emitted a choice; feed it back as the dispatch loop would
    assert!(matches!(r, Message::Choice(1)));
    let r = form.update(r);
    assert!(matches!(r, Message::Redraw));
    assert_eq!(form.chosen_from, Some((1, "two".to_string())));
}

#[test]
fn init_composes_both_children() {
    let mut form = Picker::new();
    let r = form.init();
    // both lists ask for a redraw, composed into one flat batch
    match r {
        Message::Batch(v) => {
            assert_eq!(v.len(), 2);
            assert!(v.iter().all(|m| matches!(m, Message::Redraw)));
        }
        other => panic!("expected a batch, got {:?}", other),
    }
}
