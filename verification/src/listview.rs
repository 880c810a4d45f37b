use vstd::prelude::*;
use vstd::seq_lib::group_seq_lib_default;

use crate::error::Error;
use crate::input_control::InputControl;
use crate::key::KeyCode;
use crate::message::Message;
use crate::styles::FocusState;
use crate::Model;

verus! {

broadcast use group_seq_lib_default;

/// Case folding exactly as str::to_lowercase computes it.
pub uninterp spec fn lower_of(s: Seq<char>) -> Seq<char>;

/// Relies on str::to_lowercase: the result depends on the characters
/// alone, and an empty string stays empty.
#[verifier::external_body]
fn lowercase(s: &str) -> (r: String)
    ensures
        r@ == lower_of(s@),
        s@.len() == 0 ==> r@.len() == 0,
{
    s.to_lowercase()
}

/// Whether `needle` occurs as a contiguous run inside `hay`.
pub open spec fn contains_seq(hay: Seq<char>, needle: Seq<char>) -> bool {
    exists|k: int|
        0 <= k && k + needle.len() <= hay.len() && #[trigger] hay.subrange(k, k + needle.len())
            == needle
}

/// Relies on str::contains with a string pattern: true exactly when the
/// pattern occurs as a substring.
#[verifier::external_body]
fn contains_sub(hay: &str, needle: &str) -> (r: bool)
    ensures
        r == contains_seq(hay@, needle@),
{
    hay.contains(needle)
}

/// The list's matching rule: an empty query matches everything, and a
/// non-empty one matches an item whose case-folded text contains the
/// case-folded query.
pub open spec fn matches_query(item: Seq<char>, query: Seq<char>) -> bool {
    if query.len() == 0 {
        true
    } else {
        contains_seq(lower_of(item), lower_of(query))
    }
}

/// The matching rule as a predicate on items, for filtering.
pub open spec fn match_pred(query: Seq<char>) -> spec_fn(String) -> bool {
    |s: String| matches_query(s@, query)
}

/// The filtered view: the items matching the query, in their original
/// order.
pub open spec fn filtered_seq(items: Seq<String>, query: Seq<char>) -> Seq<String> {
    items.filter(match_pred(query))
}

/// Selection as a mathematical integer, for stating wraparound.
pub open spec fn opt_int(sel: Option<usize>) -> Option<int> {
    match sel {
        Some(i) => Some(i as int),
        None => None,
    }
}

/// Where the selection lands on one upward step over a filtered view of
/// length `flen`: one before the current index, wrapping from the first
/// entry to the last; with nothing to select it stays empty.
pub open spec fn wrap_up(sel: Option<usize>, flen: int) -> Option<int> {
    match sel {
        Some(i) => Some(
            if i == 0 {
                flen - 1
            } else {
                i - 1
            },
        ),
        None => if flen == 0 {
            None
        } else {
            Some(flen - 1)
        },
    }
}

/// Where the selection lands on one downward step: one past the current
/// index, wrapping from the last entry to the first.
pub open spec fn wrap_down(sel: Option<usize>, flen: int) -> Option<int> {
    match sel {
        Some(i) => Some(
            if i + 1 >= flen {
                0
            } else {
                i + 1
            },
        ),
        None => if flen == 0 {
            None
        } else {
            Some(0int)
        },
    }
}

/// The keys that move the selection up.
pub open spec fn is_up_key(c: KeyCode) -> bool {
    c == KeyCode::Up || c == KeyCode::Char('k') || c == KeyCode::Char('w')
}

/// The keys that move the selection down.
pub open spec fn is_down_key(c: KeyCode) -> bool {
    c == KeyCode::Down || c == KeyCode::Char('j') || c == KeyCode::Char('s')
}

/// An empty query lets every item through: the filtered view under an
/// empty query is the whole backing list.  In plain navigation the
/// query is always empty, so there the list is never narrowed.
pub proof fn lemma_empty_query_keeps_all(items: Seq<String>, query: Seq<char>)
    requires
        query.len() == 0,
    ensures
        filtered_seq(items, query) == items,
    decreases items.len(),
{
    reveal(Seq::filter);
    if items.len() > 0 {
        lemma_empty_query_keeps_all(items.drop_last(), query);
        assert(items.drop_last().push(items.last()) =~= items);
    }
}

/// Over a non-empty filtered view of length `k`, moving down from the
/// last entry wraps the selection to the first, and moving up from the
/// first wraps it to the last.
pub proof fn lemma_navigation_wraps(k: usize)
    requires
        k > 0,
    ensures
        wrap_down(Some((k - 1) as usize), k as int) == Some(0int),
        wrap_up(Some(0usize), k as int) == Some(k as int - 1),
{
}

/// An empty needle occurs in every haystack.
proof fn lemma_contains_empty(hay: Seq<char>, needle: Seq<char>)
    requires
        needle.len() == 0,
    ensures
        contains_seq(hay, needle),
{
    assert(hay.subrange(0, 0 + needle.len() as int) =~= needle);
}

/// The three modes of the list state machine: plain navigation over the
/// full list, editing the query, and navigation over the filtered view.
#[derive(Debug, Clone, Copy, PartialEq, Eq, Structural)]
pub enum ListViewMode {
    Normal,
    Searching,
    Filtered,
}

/// A selectable, filterable list of textual items.
///
/// The selection always indexes the current filtered view, never the
/// unfiltered backing list; when the filtered view is empty the
/// selection is empty.  In `Normal` mode the query is empty, so the
/// filtered view is the whole list; in `Filtered` mode the query is
/// non-empty; while `Searching`, the query is being edited and the
/// selection is only re-established on confirmation.
pub struct ListView {
    title: String,
    items: Vec<String>,
    selected: Option<usize>,
    search: InputControl,
    mode: ListViewMode,
    focus: FocusState,
    chosen: Option<String>,
}

impl ListView {
    /// The backing items, in order.
    pub closed spec fn spec_items(&self) -> Seq<String> {
        self.items@
    }

    /// The list's caption.
    pub closed spec fn spec_title(&self) -> Seq<char> {
        self.title@
    }

    /// The active query text.
    pub closed spec fn spec_query(&self) -> Seq<char> {
        self.search.text()
    }

    /// The selection, as an index into the filtered view.
    pub closed spec fn spec_selected(&self) -> Option<usize> {
        self.selected
    }

    /// The current mode of the state machine.
    pub closed spec fn spec_mode(&self) -> ListViewMode {
        self.mode
    }

    /// The advisory focus flag.
    pub closed spec fn focus_state(&self) -> FocusState {
        self.focus
    }

    /// The item captured by the last confirmed selection, if any.
    pub closed spec fn spec_chosen(&self) -> Option<String> {
        self.chosen
    }

    /// The filtered view the selection indexes into.
    pub open spec fn spec_filtered(&self) -> Seq<String> {
        filtered_seq(self.spec_items(), self.spec_query())
    }

    /// The state machine's invariant: outside of query editing the
    /// selection indexes the filtered view (so an empty view has no
    /// selection); plain navigation means an empty query, and filtered
    /// navigation a non-empty one.
    pub open spec fn inv(&self) -> bool {
        &&& (self.spec_mode() == ListViewMode::Normal ==> self.spec_query().len() == 0)
        &&& (self.spec_mode() == ListViewMode::Filtered ==> self.spec_query().len() > 0)
        &&& (self.spec_mode() != ListViewMode::Searching ==> (match self.spec_selected() {
            Some(i) => (i as int) < self.spec_filtered().len(),
            None => true,
        }))
    }

    #[verifier::type_invariant]
    spec fn type_inv(&self) -> bool {
        self.inv()
    }

    /// A list over the given items, in plain navigation with an empty
    /// query and no selection yet.
    pub fn new(title: &str, items: Vec<String>) -> (r: Self)
        ensures
            r.spec_title() == title@,
            r.spec_items() == items@,
            r.spec_query().len() == 0,
            r.spec_selected() is None,
            r.spec_mode() == ListViewMode::Normal,
            r.focus_state() == FocusState::Blur,
            r.spec_chosen() is None,
            r.inv(),
    {
        proof {
            reveal_strlit("");
        }
        Self {
            title: title.to_owned(),
            items,
            selected: None,
            search: InputControl::from_value(""),
            mode: ListViewMode::Normal,
            focus: FocusState::Blur,
            chosen: None,
        }
    }

    /// A fresh list with the same caption over other items.
    pub fn with_items(&self, items: Vec<String>) -> (r: Self)
        ensures
            r.spec_title() == self.spec_title(),
            r.spec_items() == items@,
            r.spec_query().len() == 0,
            r.spec_selected() is None,
            r.spec_mode() == ListViewMode::Normal,
            r.spec_chosen() is None,
            r.inv(),
    {
        Self::new(self.title.as_str(), items)
    }

    /// The list's caption.
    pub fn title(&self) -> (r: &String)
        ensures
            r@ == self.spec_title(),
    {
        &self.title
    }

    /// The current mode of the state machine.
    pub fn mode(&self) -> (r: ListViewMode)
        ensures
            r == self.spec_mode(),
    {
        self.mode
    }

    /// The selection, as an index into the filtered view.
    pub fn selected_index(&self) -> (r: Option<usize>)
        ensures
            r == self.spec_selected(),
    {
        self.selected
    }

    /// The advisory focus flag.
    pub fn focus(&self) -> (r: FocusState)
        ensures
            r == self.focus_state(),
    {
        self.focus
    }

    /// The item captured by the last confirmed selection, if any.
    pub fn chosen(&self) -> (r: &Option<String>)
        ensures
            *r == self.spec_chosen(),
    {
        &self.chosen
    }

    /// The query editor, for the presentation layer.
    pub fn search_control(&self) -> (r: &InputControl)
        ensures
            r.text() == self.spec_query(),
    {
        &self.search
    }

    /// How many items the current query lets through.
    pub fn filtered_len(&self) -> (r: usize)
        ensures
            r as int == self.spec_filtered().len(),
    {
        let ghost qv = self.spec_query();
        let query = self.search.value();
        let query_lower = lowercase(query.as_str());
        let mut n: usize = 0;
        let mut i: usize = 0;
        while i < self.items.len()
            invariant
                i <= self.items.len(),
                n <= i,
                query_lower@ == lower_of(qv),
                qv.len() == 0 ==> query_lower@.len() == 0,
                n as int == filtered_seq(self.items@.subrange(0, i as int), qv).len(),
            decreases self.items.len() - i,
        {
            let ghost prefix = self.items@.subrange(0, i as int);
            let m = item_matches(&self.items[i], &query_lower, Ghost(qv));
            proof {
                assert(self.items@.subrange(0, i + 1 as int) =~= prefix.push(self.items@[i as int]));
                Seq::lemma_filter_push(prefix, self.items@[i as int], match_pred(qv));
            }
            if m {
                n = n + 1;
            }
            i = i + 1;
        }
        proof {
            assert(self.items@.subrange(0, self.items@.len() as int) =~= self.items@);
        }
        n
    }

    /// The items the current query lets through, in their original
    /// order.
    pub fn filtered_items(&self) -> (r: Vec<String>)
        ensures
            r@ == self.spec_filtered(),
    {
        let ghost qv = self.spec_query();
        let query = self.search.value();
        let query_lower = lowercase(query.as_str());
        let mut out: Vec<String> = Vec::new();
        let mut i: usize = 0;
        while i < self.items.len()
            invariant
                i <= self.items.len(),
                query_lower@ == lower_of(qv),
                qv.len() == 0 ==> query_lower@.len() == 0,
                out@ == filtered_seq(self.items@.subrange(0, i as int), qv),
            decreases self.items.len() - i,
        {
            let ghost prefix = self.items@.subrange(0, i as int);
            let m = item_matches(&self.items[i], &query_lower, Ghost(qv));
            proof {
                assert(self.items@.subrange(0, i + 1 as int) =~= prefix.push(self.items@[i as int]));
                Seq::lemma_filter_push(prefix, self.items@[i as int], match_pred(qv));
            }
            if m {
                out.push(self.items[i].clone());
            }
            i = i + 1;
        }
        proof {
            assert(self.items@.subrange(0, self.items@.len() as int) =~= self.items@);
        }
        out
    }

    /// The item at the given index of the filtered view, if the index
    /// is in range.
    pub fn filtered_get(&self, index: usize) -> (r: Option<&String>)
        ensures
            (index as int) < self.spec_filtered().len() ==> (r matches Some(s) && *s
                == self.spec_filtered()[index as int]),
            (index as int) >= self.spec_filtered().len() ==> r is None,
    {
        let ghost qv = self.spec_query();
        let ghost full = self.items@;
        let query = self.search.value();
        let query_lower = lowercase(query.as_str());
        let mut n: usize = 0;
        let mut i: usize = 0;
        while i < self.items.len()
            invariant
                i <= self.items.len(),
                n <= i,
                query_lower@ == lower_of(qv),
                qv.len() == 0 ==> query_lower@.len() == 0,
                qv == self.spec_query(),
                full == self.items@,
                n as int == filtered_seq(full.subrange(0, i as int), qv).len(),
                n <= index,
            decreases self.items.len() - i,
        {
            let ghost prefix = full.subrange(0, i as int);
            let m = item_matches(&self.items[i], &query_lower, Ghost(qv));
            proof {
                assert(full.subrange(0, i + 1 as int) =~= prefix.push(full[i as int]));
                Seq::lemma_filter_push(prefix, full[i as int], match_pred(qv));
            }
            if m {
                if n == index {
                    proof {
                        let ext = full.subrange(0, i + 1 as int);
                        let rest = full.subrange(i + 1 as int, full.len() as int);
                        assert(full =~= ext + rest);
                        Seq::filter_distributes_over_add(ext, rest, match_pred(qv));
                        assert(self.spec_filtered()[index as int] == filtered_seq(ext, qv)[index as int]);
                    }
                    return Some(&self.items[i]);
                }
                n = n + 1;
            }
            i = i + 1;
        }
        proof {
            assert(full.subrange(0, full.len() as int) =~= full);
        }
        None
    }

    /// The item the selection points at, if there is a selection and it
    /// is in range of the filtered view.
    pub fn selected(&self) -> (r: Option<&String>)
        ensures
            match self.spec_selected() {
                None => r is None,
                Some(i) => if (i as int) < self.spec_filtered().len() {
                    r matches Some(s) && *s == self.spec_filtered()[i as int]
                } else {
                    r is None
                },
            },
    {
        match self.selected {
            None => None,
            Some(i) => self.filtered_get(i),
        }
    }
}

/// Everything but the selection kept: what list navigation changes.
pub open spec fn same_but_selection(a: &ListView, b: &ListView) -> bool {
    &&& a.spec_items() == b.spec_items()
    &&& a.spec_title() == b.spec_title()
    &&& a.spec_query() == b.spec_query()
    &&& a.spec_mode() == b.spec_mode()
    &&& a.spec_chosen() == b.spec_chosen()
    &&& a.focus_state() == b.focus_state()
}

/// Everything but the query text kept: what a key handed to the query
/// editor changes.
pub open spec fn edited_query(a: &ListView, b: &ListView) -> bool {
    &&& a.spec_items() == b.spec_items()
    &&& a.spec_title() == b.spec_title()
    &&& a.spec_selected() == b.spec_selected()
    &&& a.spec_mode() == b.spec_mode()
    &&& a.spec_chosen() == b.spec_chosen()
    &&& a.focus_state() == b.focus_state()
}

/// Leaving `Searching` by confirming the query: the query stays as
/// edited and keeps defining the filter; the mode becomes `Filtered`
/// exactly when the query is non-empty; and the selection is reset to
/// the head of the new filtered view, or cleared when it is empty.
pub open spec fn confirmed_search(a: &ListView, b: &ListView) -> bool {
    &&& a.spec_items() == b.spec_items()
    &&& a.spec_title() == b.spec_title()
    &&& b.spec_query() == a.spec_query()
    &&& b.spec_chosen() == a.spec_chosen()
    &&& b.focus_state() == a.focus_state()
    &&& b.spec_mode() == (if a.spec_query().len() == 0 {
        ListViewMode::Normal
    } else {
        ListViewMode::Filtered
    })
    &&& opt_int(b.spec_selected()) == (if a.spec_filtered().len() == 0 {
        None::<int>
    } else {
        Some(0int)
    })
}

impl ListView {
    /// Confirm the query being edited: reset the selection to the head
    /// of the filtered view (or to nothing when it is empty), then
    /// settle into plain navigation when the query came out empty and
    /// filtered navigation otherwise.
    fn confirm_search(&mut self) -> (r: Message)
        ensures
            confirmed_search(old(self), final(self)),
            final(self).inv(),
            r is Redraw,
    {
        proof {
            use_type_invariant(&*self);
        }
        let fl = self.filtered_len();
        self.selected = if fl == 0 {
            None
        } else {
            Some(0)
        };
        let q = self.search.value();
        self.mode = if q.as_str().is_empty() {
            ListViewMode::Normal
        } else {
            ListViewMode::Filtered
        };
        Message::Redraw
    }
}

impl Model for ListView {
    /// Select the head of the filtered view if there is anything to
    /// select; an empty backing list leaves the state alone.
    fn init(&mut self) -> (r: Message)
        ensures
            final(self).inv(),
            old(self).spec_items().len() == 0 ==> r is Noop && *final(self) == *old(self),
            old(self).spec_items().len() > 0 ==> {
                &&& r is Redraw
                &&& same_but_selection(old(self), final(self))
                &&& opt_int(final(self).spec_selected()) == (if old(self).spec_filtered().len()
                    == 0 {
                    None::<int>
                } else {
                    Some(0int)
                })
            },
    {
        proof {
            use_type_invariant(&*self);
        }
        if self.items.is_empty() {
            return Message::Noop;
        }
        let fl = self.filtered_len();
        self.selected = if fl == 0 {
            None
        } else {
            Some(0)
        };
        Message::Redraw
    }

    /// One step of the search and filter state machine, driven by key
    /// presses; every other message falls through as `Noop`.
    fn update(&mut self, msg: Message) -> (r: Message)
        ensures
            final(self).inv(),
            match msg {
                Message::KeyPress(k) => {
                    if k.code == KeyCode::Char('/') {
                        // enter search: clear the query, keep the selection
                        &&& final(self).spec_mode() == ListViewMode::Searching
                        &&& final(self).spec_query().len() == 0
                        &&& final(self).spec_selected() == old(self).spec_selected()
                        &&& final(self).spec_chosen() == old(self).spec_chosen()
                        &&& final(self).spec_items() == old(self).spec_items()
                        &&& final(self).spec_title() == old(self).spec_title()
                        &&& final(self).focus_state() == old(self).focus_state()
                        &&& r is Redraw
                    } else if is_up_key(k.code) {
                        if old(self).spec_mode() == ListViewMode::Searching {
                            edited_query(old(self), final(self)) && r is Redraw
                        } else {
                            &&& same_but_selection(old(self), final(self))
                            &&& opt_int(final(self).spec_selected()) == wrap_up(
                                old(self).spec_selected(),
                                old(self).spec_filtered().len() as int,
                            )
                            &&& r is Redraw
                        }
                    } else if is_down_key(k.code) {
                        if old(self).spec_mode() == ListViewMode::Searching {
                            if k.code == KeyCode::Down {
                                confirmed_search(old(self), final(self)) && r is Redraw
                            } else {
                                edited_query(old(self), final(self)) && r is Redraw
                            }
                        } else {
                            &&& same_but_selection(old(self), final(self))
                            &&& opt_int(final(self).spec_selected()) == wrap_down(
                                old(self).spec_selected(),
                                old(self).spec_filtered().len() as int,
                            )
                            &&& r is Redraw
                        }
                    } else if k.code == KeyCode::Enter {
                        if old(self).spec_mode() == ListViewMode::Searching {
                            confirmed_search(old(self), final(self)) && r is Redraw
                        } else if old(self).spec_filtered().len() == 0 {
                            // confirming with no matches reports an error
                            &&& *final(self) == *old(self)
                            &&& r matches Message::Error(e)
                            &&& (e matches Error::OwnedError(t) && t@
                                == "No items match the search query."@)
                        } else {
                            match old(self).spec_selected() {
                                // capture the selected item and announce the choice
                                Some(i) => {
                                    &&& final(self).spec_items() == old(self).spec_items()
                                    &&& final(self).spec_title() == old(self).spec_title()
                                    &&& final(self).spec_query() == old(self).spec_query()
                                    &&& final(self).spec_mode() == old(self).spec_mode()
                                    &&& final(self).spec_selected() == old(self).spec_selected()
                                    &&& final(self).focus_state() == old(self).focus_state()
                                    &&& final(self).spec_chosen() == Some(
                                        old(self).spec_filtered()[i as int],
                                    )
                                    &&& r == Message::Choice(i)
                                },
                                None => *final(self) == *old(self) && r is Noop,
                            }
                        }
                    } else {
                        if old(self).spec_mode() == ListViewMode::Searching {
                            edited_query(old(self), final(self)) && r is Redraw
                        } else {
                            *final(self) == *old(self) && r is Noop
                        }
                    }
                },
                _ => *final(self) == *old(self) && r is Noop,
            },
    {
        proof {
            use_type_invariant(&*self);
        }
        match msg {
            Message::KeyPress(key) => {
                match key.code {
                    KeyCode::Up | KeyCode::Char('k') | KeyCode::Char('w') => {
                        if matches!(self.mode, ListViewMode::Searching) {
                            self.search.handle_key(key)
                        } else {
                            let fl = self.filtered_len();
                            let new_sel = match self.selected {
                                Some(i) => if i == 0 {
                                    Some(fl - 1)
                                } else {
                                    Some(i - 1)
                                },
                                None => if fl == 0 {
                                    None
                                } else {
                                    Some(fl - 1)
                                },
                            };
                            self.selected = new_sel;
                            Message::Redraw
                        }
                    },
                    KeyCode::Down | KeyCode::Char('j') | KeyCode::Char('s') => {
                        if matches!(self.mode, ListViewMode::Searching) {
                            if key.code == KeyCode::Down {
                                self.confirm_search()
                            } else {
                                self.search.handle_key(key)
                            }
                        } else {
                            let fl = self.filtered_len();
                            let new_sel = match self.selected {
                                Some(i) => if i + 1 >= fl {
                                    Some(0)
                                } else {
                                    Some(i + 1)
                                },
                                None => if fl == 0 {
                                    None
                                } else {
                                    Some(0)
                                },
                            };
                            self.selected = new_sel;
                            Message::Redraw
                        }
                    },
                    KeyCode::Enter => {
                        if matches!(self.mode, ListViewMode::Searching) {
                            self.confirm_search()
                        } else {
                            let fl = self.filtered_len();
                            if fl == 0 {
                                Message::errorf(
                                    String::from_str("No items match the search query."),
                                )
                            } else {
                                match self.selected {
                                    Some(i) => {
                                        let picked = match self.filtered_get(i) {
                                            Some(s) => Some(s.clone()),
                                            None => None,
                                        };
                                        self.chosen = picked;
                                        Message::Choice(i)
                                    },
                                    None => Message::Noop,
                                }
                            }
                        }
                    },
                    KeyCode::Char('/') => {
                        self.mode = ListViewMode::Searching;
                        self.search.set_value("");
                        proof {
                            reveal_strlit("");
                        }
                        Message::Redraw
                    },
                    _ => {
                        if matches!(self.mode, ListViewMode::Searching) {
                            self.search.handle_key(key)
                        } else {
                            Message::Noop
                        }
                    },
                }
            },
            _ => Message::Noop,
        }
    }

    fn help(&self) -> (r: Option<String>)
        ensures
            r matches Some(h) && h@
                == "Use Up/Down arrows or 'j'/'k' to navigate, Enter to select, / to toggle filtering"@,
    {
        Some(
            String::from_str(
                "Use Up/Down arrows or 'j'/'k' to navigate, Enter to select, / to toggle filtering",
            ),
        )
    }

    fn set_focus(&mut self, focused: FocusState)
        ensures
            final(self).focus_state() == focused,
            final(self).spec_items() == old(self).spec_items(),
            final(self).spec_title() == old(self).spec_title(),
            final(self).spec_query() == old(self).spec_query(),
            final(self).spec_mode() == old(self).spec_mode(),
            final(self).spec_selected() == old(self).spec_selected(),
            final(self).spec_chosen() == old(self).spec_chosen(),
    {
        proof {
            use_type_invariant(&*self);
        }
        self.focus = focused;
    }
}

/// Decide the matching rule for one item, given the already-folded
/// query.
fn item_matches(item: &String, query_lower: &String, Ghost(query): Ghost<Seq<char>>) -> (r: bool)
    requires
        query_lower@ == lower_of(query),
        query.len() == 0 ==> query_lower@.len() == 0,
    ensures
        r == matches_query(item@, query),
{
    let item_lower = lowercase(item.as_str());
    let m = contains_sub(item_lower.as_str(), query_lower.as_str());
    proof {
        if query.len() == 0 {
            lemma_contains_empty(lower_of(item@), lower_of(query));
        }
    }
    m
}

} // verus!
