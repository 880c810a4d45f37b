use raccacoonie::error::Error;
use raccacoonie::key::{KeyCode, KeyInput};
use raccacoonie::listview::{ListView, ListViewMode};
use raccacoonie::message::Message;
use raccacoonie::Model;

fn key(code: KeyCode) -> Message {
    Message::KeyPress(KeyInput::plain(code))
}

fn chr(c: char) -> Message {
    key(KeyCode::Char(c))
}

fn fruits() -> ListView {
    ListView::new(
        "Fruits",
        vec![
            "Apple".to_string(),
            "Banana".to_string(),
            "Cherry".to_string(),
            "apricot".to_string(),
        ],
    )
}

fn type_query(view: &mut ListView, q: &str) {
    for c in q.chars() {
        view.update(chr(c));
    }
}

#[test]
fn new_starts_plain_and_unselected() {
    let v = fruits();
    assert_eq!(v.mode(), ListViewMode::Normal);
    assert_eq!(v.selected_index(), None);
    assert_eq!(v.filtered_len(), 4);
    assert!(v.chosen().is_none());
}

#[test]
fn init_selects_head_of_nonempty_list() {
    let mut v = fruits();
    let r = v.init();
    assert!(matches!(r, Message::Redraw));
    assert_eq!(v.selected_index(), Some(0));
}

#[test]
fn init_on_empty_list_selects_nothing() {
    let mut v = ListView::new("Empty", vec![]);
    let r = v.init();
    assert!(matches!(r, Message::Noop));
    assert_eq!(v.selected_index(), None);
}

#[test]
fn filter_is_case_insensitive_substring() {
    let mut v = fruits();
    v.update(chr('/'));
    assert_eq!(v.mode(), ListViewMode::Searching);
    type_query(&mut v, "AP");
    v.update(key(KeyCode::Enter));
    assert_eq!(v.mode(), ListViewMode::Filtered);
    let shown = v.filtered_items();
    assert_eq!(shown, vec!["Apple".to_string(), "apricot".to_string()]);
    assert_eq!(v.selected_index(), Some(0));
}

#[test]
fn query_matching_nothing_clears_selection_and_confirm_reports() {
    let mut v = fruits();
    v.init();
    v.update(chr('/'));
    type_query(&mut v, "zz");
    v.update(key(KeyCode::Enter));
    assert_eq!(v.mode(), ListViewMode::Filtered);
    assert_eq!(v.selected_index(), None);
    assert_eq!(v.filtered_len(), 0);
    // confirming with no matches reports an error, not a panic or a silent no-op
    let r = v.update(key(KeyCode::Enter));
    match r {
        Message::Error(Error::OwnedError(t)) => {
            assert_eq!(t, "No items match the search query.")
        }
        other => panic!("expected an error message, got {:?}", other),
    }
}

#[test]
fn navigation_wraps_both_ways() {
    let mut v = fruits();
    v.update(chr('/'));
    type_query(&mut v, "ap");
    v.update(key(KeyCode::Enter));
    assert_eq!(v.filtered_len(), 2);
    assert_eq!(v.selected_index(), Some(0));
    // down from the last filtered item wraps to the first
    v.update(key(KeyCode::Down));
    assert_eq!(v.selected_index(), Some(1));
    v.update(key(KeyCode::Down));
    assert_eq!(v.selected_index(), Some(0));
    // up from the first wraps to the last
    v.update(key(KeyCode::Up));
    assert_eq!(v.selected_index(), Some(1));
}

#[test]
fn navigation_on_empty_filter_stays_unselected() {
    let mut v = fruits();
    v.update(chr('/'));
    type_query(&mut v, "zz");
    v.update(key(KeyCode::Enter));
    v.update(key(KeyCode::Down));
    assert_eq!(v.selected_index(), None);
    v.update(key(KeyCode::Up));
    assert_eq!(v.selected_index(), None);
}

#[test]
fn empty_query_confirm_returns_to_normal() {
    let mut v = fruits();
    v.update(chr('/'));
    v.update(key(KeyCode::Enter));
    assert_eq!(v.mode(), ListViewMode::Normal);
    assert_eq!(v.selected_index(), Some(0));
}

#[test]
fn down_key_confirms_search_like_enter() {
    let mut v = fruits();
    v.update(chr('/'));
    type_query(&mut v, "ban");
    v.update(key(KeyCode::Down));
    assert_eq!(v.mode(), ListViewMode::Filtered);
    assert_eq!(v.selected_index(), Some(0));
    assert_eq!(v.filtered_items(), vec!["Banana".to_string()]);
}

#[test]
fn confirming_a_selection_captures_the_item() {
    let mut v = fruits();
    v.init();
    v.update(chr('/'));
    type_query(&mut v, "an");
    v.update(key(KeyCode::Enter));
    let r = v.update(key(KeyCode::Enter));
    assert!(matches!(r, Message::Choice(0)));
    assert_eq!(v.chosen(), &Some("Banana".to_string()));
}

#[test]
fn slash_clears_previous_query() {
    let mut v = fruits();
    v.update(chr('/'));
    type_query(&mut v, "ap");
    v.update(key(KeyCode::Enter));
    assert_eq!(v.filtered_len(), 2);
    v.update(chr('/'));
    assert_eq!(v.mode(), ListViewMode::Searching);
    // the query starts over, so everything matches again
    assert_eq!(v.filtered_len(), 4);
}

#[test]
fn backspace_edits_the_query() {
    let mut v = fruits();
    v.update(chr('/'));
    type_query(&mut v, "apx");
    v.update(key(KeyCode::Backspace));
    v.update(key(KeyCode::Enter));
    assert_eq!(v.filtered_len(), 2);
}

#[test]
fn end_to_end_empty_list_search_flow() {
    // initial model with an empty backing list
    let mut v = ListView::new("Nothing", vec![]);
    let r = v.init();
    assert!(matches!(r, Message::Noop));
    assert_eq!(v.selected_index(), None);
    // pressing the down key changes nothing
    v.update(key(KeyCode::Down));
    assert_eq!(v.selected_index(), None);
    // searching for something that cannot match
    v.update(chr('/'));
    type_query(&mut v, "ab");
    v.update(key(KeyCode::Enter));
    assert_eq!(v.mode(), ListViewMode::Filtered);
    assert_eq!(v.selected_index(), None);
    // the next confirm attempt yields a visible error
    let r = v.update(key(KeyCode::Enter));
    assert!(matches!(r, Message::Error(_)));
}

#[test]
fn with_items_keeps_the_title() {
    let v = fruits();
    let w = v.with_items(vec!["Pear".to_string()]);
    assert_eq!(w.title(), "Fruits");
    assert_eq!(w.filtered_len(), 1);
    assert_eq!(w.mode(), ListViewMode::Normal);
}

#[test]
fn filtered_get_and_selected_agree() {
    let mut v = fruits();
    v.init();
    assert_eq!(v.filtered_get(0), Some(&"Apple".to_string()));
    assert_eq!(v.filtered_get(3), Some(&"apricot".to_string()));
    assert_eq!(v.filtered_get(4), None);
    assert_eq!(v.selected(), Some(&"Apple".to_string()));
}

#[test]
fn other_keys_fall_through_outside_search() {
    let mut v = fruits();
    v.init();
    let r = v.update(chr('x'));
    assert!(matches!(r, Message::Noop));
    let r = v.update(Message::Redraw);
    assert!(matches!(r, Message::Noop));
}
