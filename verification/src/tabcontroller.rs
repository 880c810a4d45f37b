use vstd::prelude::*;

use crate::key::KeyCode;
use crate::message::Message;
use crate::styles::FocusState;

verus! {

/// Where the focus ring moves on one forward step: one past `current`,
/// wrapping to the first slot after the last.
pub open spec fn next_index(current: int, size: int) -> int {
    if current + 1 >= size {
        0
    } else {
        current + 1
    }
}

/// Where the focus ring moves on one backward step: one before
/// `current`, wrapping to the last slot before the first.
pub open spec fn prev_index(current: int, size: int) -> int {
    if current == 0 {
        size - 1
    } else {
        current - 1
    }
}

/// The index reached after `n` forward steps.
pub open spec fn iterate_next(current: int, size: int, n: nat) -> int
    decreases n,
{
    if n == 0 {
        current
    } else {
        iterate_next(next_index(current, size), size, (n - 1) as nat)
    }
}

/// A ring counter over `size` slots: the small state machine composite
/// models use to decide which child currently accepts input and shows
/// visual focus.  The current index always stays below `size`; a
/// controller of size zero is degenerate and only ever holds index zero.
pub struct TabController {
    pub size: usize,
    pub current: usize,
}

impl TabController {
    /// The ring's invariant: the current index is in range, and the
    /// degenerate empty ring rests at zero.
    pub open spec fn wf(&self) -> bool {
        if self.size == 0 {
            self.current == 0
        } else {
            self.current < self.size
        }
    }

    /// A ring of the given size, starting at the first slot.
    pub fn new(size: usize) -> (r: Self)
        ensures
            r.size == size,
            r.current == 0,
            r.wf(),
    {
        Self { size, current: 0 }
    }

    /// Grow the ring by `new` slots, returning the new size.
    pub fn add(&mut self, new: usize) -> (r: usize)
        requires
            old(self).size + new <= usize::MAX,
    ensures
            final(self).size == old(self).size + new,
            final(self).current == old(self).current,
            r == final(self).size,
            old(self).wf() ==> final(self).wf(),
    {
        self.size = self.size + new;
        self.size
    }

    /// The index of the slot that currently holds focus.
    #[inline]
    pub fn get_current_index(&self) -> (r: usize)
        ensures
            r == self.current,
    {
        self.current
    }

    /// Step the focus forward one slot, wrapping past the end.
    pub fn next(&mut self) -> (r: usize)
        requires
            old(self).wf(),
        ensures
            final(self).size == old(self).size,
            final(self).current == next_index(old(self).current as int, old(self).size as int),
            old(self).size > 0 ==> final(self).current == (old(self).current + 1) % (
            old(self).size as int),
            r == final(self).current,
            final(self).wf(),
    {
        self.current = self.current + 1;
        if self.current >= self.size {
            self.current = 0;
        }
        proof {
            if old(self).size > 0 {
                if old(self).current + 1 == old(self).size {
                    vstd::arithmetic::div_mod::lemma_mod_self_0(old(self).size as int);
                } else {
                    vstd::arithmetic::div_mod::lemma_small_mod(
                        (old(self).current + 1) as nat,
                        old(self).size as nat,
                    );
                }
            }
        }
        self.current
    }

    /// Step the focus backward one slot, wrapping before the start.
    /// An empty ring has no slot to move to.
    pub fn previous(&mut self) -> (r: usize)
        requires
            old(self).wf(),
            old(self).size > 0,
        ensures
            final(self).size == old(self).size,
            final(self).current == prev_index(old(self).current as int, old(self).size as int),
            final(self).current == (old(self).current + old(self).size - 1) % (
            old(self).size as int),
            r == final(self).current,
            final(self).wf(),
    {
        if self.current == 0 {
            self.current = self.size;
        }
        self.current = self.current - 1;
        proof {
            let c = old(self).current as int;
            let n = old(self).size as int;
            if c == 0 {
                vstd::arithmetic::div_mod::lemma_small_mod((n - 1) as nat, n as nat);
            } else {
                vstd::arithmetic::div_mod::lemma_mod_multiples_vanish(1, c - 1, n);
                vstd::arithmetic::div_mod::lemma_small_mod((c - 1) as nat, n as nat);
            }
        }
        self.current
    }

    /// Whether the slot at `idx` holds focus.
    pub fn is_focused(&self, idx: usize) -> (r: bool)
        ensures
            r == (idx == self.current),
    {
        idx == self.current
    }

    /// React to the focus-movement keys: a forward key steps the ring
    /// forward, a backward key steps it backward, each asking for a
    /// redraw; every other message falls through as `Noop` so a caller's
    /// handler chain can try the next handler.
    pub fn update(&mut self, msg: &Message) -> (r: Message)
        requires
            old(self).wf(),
            old(self).size > 0,
        ensures
            final(self).wf(),
            final(self).size == old(self).size,
            match *msg {
                Message::KeyPress(k) => {
                    if k.code == KeyCode::Tab {
                        &&& final(self).current == next_index(
                            old(self).current as int,
                            old(self).size as int,
                        )
                        &&& r is Redraw
                    } else if k.code == KeyCode::BackTab {
                        &&& final(self).current == prev_index(
                            old(self).current as int,
                            old(self).size as int,
                        )
                        &&& r is Redraw
                    } else {
                        &&& *final(self) == *old(self)
                        &&& r is Noop
                    }
                },
                _ => *final(self) == *old(self) && r is Noop,
            },
    {
        match msg {
            Message::KeyPress(k) => {
                if k.code == KeyCode::Tab {
                    self.next();
                    Message::Redraw
                } else if k.code == KeyCode::BackTab {
                    self.previous();
                    Message::Redraw
                } else {
                    Message::Noop
                }
            },
            _ => Message::Noop,
        }
    }

    /// Every slot index paired with the focus flag it should carry now.
    pub fn iter(&self) -> (r: Vec<(usize, FocusState)>)
        ensures
            r@.len() == self.size,
            forall|i: int|
                0 <= i < self.size ==> #[trigger] r@[i] == (
                i as usize,
                if i == self.current {
                    FocusState::Focus
                } else {
                    FocusState::Blur
                },
                ),
    {
        let mut out: Vec<(usize, FocusState)> = Vec::new();
        let mut i: usize = 0;
        while i < self.size
            invariant
                i <= self.size,
                out@.len() == i as int,
                forall|j: int|
                    0 <= j < i as int ==> #[trigger] out@[j] == (
                    j as usize,
                    if j == self.current {
                        FocusState::Focus
                    } else {
                        FocusState::Blur
                    },
                    ),
            decreases self.size - i,
        {
            let flag = if i == self.current {
                FocusState::Focus
            } else {
                FocusState::Blur
            };
            out.push((i, flag));
            i = i + 1;
        }
        out
    }
}

impl Default for TabController {
    fn default() -> (r: Self)
        ensures
            r.size == 0,
            r.current == 0,
            r.wf(),
    {
        TabController { size: 0, current: 0 }
    }
}

/// After `k` forward steps that stay short of the end, the index has
/// simply advanced by `k`.
proof fn lemma_iterate_next_no_wrap(current: int, size: int, k: nat)
    requires
        0 <= current,
        current + k < size,
    ensures
        iterate_next(current, size, k) == current + k,
    decreases k,
{
    if k > 0 {
        lemma_iterate_next_no_wrap(current + 1, size, (k - 1) as nat);
    }
}

/// Forward steps compose: `a + b` steps land where `b` steps land after
/// `a` steps.
proof fn lemma_iterate_next_compose(current: int, size: int, a: nat, b: nat)
    ensures
        iterate_next(current, size, a + b) == iterate_next(
            iterate_next(current, size, a),
            size,
            b,
        ),
    decreases a,
{
    if a > 0 {
        lemma_iterate_next_compose(next_index(current, size), size, (a - 1) as nat, b);
    }
}

/// Stepping the focus ring forward exactly `size` times from any valid
/// index returns to that index.
pub proof fn lemma_next_full_cycle(current: int, size: int)
    requires
        0 <= current < size,
    ensures
        iterate_next(current, size, size as nat) == current,
{
    let to_last = (size - 1 - current) as nat;
    lemma_iterate_next_no_wrap(current, size, to_last);
    assert(iterate_next(current, size, to_last) == size - 1);
    lemma_iterate_next_compose(current, size, to_last, 1);
    assert(next_index(size - 1, size) == 0);
    assert(iterate_next(size - 1, size, 1) == iterate_next(next_index(size - 1, size), size, 0));
    assert(iterate_next(0, size, 0) == 0);
    assert(iterate_next(current, size, to_last + 1) == 0);
    lemma_iterate_next_no_wrap(0, size, current as nat);
    lemma_iterate_next_compose(current, size, to_last + 1, current as nat);
    assert(to_last + 1 + current == size);
}

/// One backward step exactly undoes one forward step, and the other way
/// round: `previous` is the inverse of `next` on every valid index.
pub proof fn lemma_previous_inverts_next(current: int, size: int)
    requires
        0 <= current < size,
    ensures
        prev_index(next_index(current, size), size) == current,
        next_index(prev_index(current, size), size) == current,
{
}

} // verus!
