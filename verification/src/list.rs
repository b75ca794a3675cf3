//! Selectable lists: an ordered sequence of items together with an optional
//! cursor. Cursor movement is cyclic — advancing past the last element wraps
//! to the first, and stepping back from the first wraps to the last — so that
//! browsing has no dead end at either boundary. On an empty list both moves
//! are no-ops, and the cursor stays cleared.

use vstd::prelude::*;

verus! {

use vstd::arithmetic::div_mod::{
    lemma_add_mod_noop_right, lemma_mod_add_multiples_vanish, lemma_mod_bound, lemma_mod_self_0,
    lemma_small_mod,
};

/// The cursor that results from one forward step over a list of length `len`.
///
/// A cleared cursor selects the first element; otherwise the cursor advances
/// by one and wraps from the last element to the first. On an empty list the
/// step is a no-op.
pub open spec fn next_cursor(c: Option<usize>, len: nat) -> Option<usize> {
    if len == 0 {
        c
    } else {
        match c {
            None => Some(0usize),
            Some(i) => if i + 1 < len {
                Some((i + 1) as usize)
            } else {
                Some(0usize)
            },
        }
    }
}

/// The cursor that results from one backward step over a list of length `len`.
///
/// A cleared cursor selects the first element; otherwise the cursor steps back
/// by one and wraps from the first element to the last. On an empty list the
/// step is a no-op.
pub open spec fn prev_cursor(c: Option<usize>, len: nat) -> Option<usize> {
    if len == 0 {
        c
    } else {
        match c {
            None => Some(0usize),
            Some(i) => if i == 0 {
                Some((len - 1) as usize)
            } else {
                Some((i - 1) as usize)
            },
        }
    }
}

/// `next_cursor` applied `k` times.
pub open spec fn next_cursor_iter(c: Option<usize>, len: nat, k: nat) -> Option<usize>
    decreases k,
{
    if k == 0 {
        c
    } else {
        next_cursor(next_cursor_iter(c, len, (k - 1) as nat), len)
    }
}

/// An ordered sequence of items with an optional selection cursor.
pub struct StatefulList<T> {
    /// The selected index, if any; `None` when nothing is selected.
    pub cursor: Option<usize>,
    /// The items, in order.
    pub items: Vec<T>,
}

impl<T> StatefulList<T> {
    /// A set cursor always points inside the list.
    pub open spec fn wf(&self) -> bool {
        match self.cursor {
            Some(i) => i < self.items@.len(),
            None => true,
        }
    }

    /// Builds a list over `items` with nothing selected.
    pub fn with_items(items: Vec<T>) -> (l: StatefulList<T>)
        ensures
            l.items == items,
            l.cursor is None,
            l.wf(),
    {
        StatefulList { cursor: None, items }
    }

    /// Advances the cursor one step, cyclically; a no-op on an empty list.
    pub fn next(&mut self)
        requires
            old(self).wf(),
        ensures
            final(self).wf(),
            final(self).items == old(self).items,
            final(self).cursor == next_cursor(old(self).cursor, old(self).items@.len()),
    {
        let len = self.items.len();
        if len == 0 {
            return;
        }
        let i: usize = match self.cursor {
            Some(i) => if i >= len - 1 {
                0
            } else {
                i + 1
            },
            None => 0,
        };
        self.cursor = Some(i);
    }

    /// Steps the cursor back one step, cyclically; a no-op on an empty list.
    pub fn previous(&mut self)
        requires
            old(self).wf(),
        ensures
            final(self).wf(),
            final(self).items == old(self).items,
            final(self).cursor == prev_cursor(old(self).cursor, old(self).items@.len()),
    {
        let len = self.items.len();
        if len == 0 {
            return;
        }
        let i: usize = match self.cursor {
            Some(i) => if i == 0 {
                len - 1
            } else {
                i - 1
            },
            None => 0,
        };
        self.cursor = Some(i);
    }

    /// Clears the cursor unconditionally.
    pub fn unselect(&mut self)
        ensures
            final(self).wf(),
            final(self).items == old(self).items,
            final(self).cursor is None,
    {
        self.cursor = None;
    }
}

/// After `k` forward steps from index `i` the cursor sits at `(i + k) mod len`.
proof fn lemma_next_cursor_iter_mod(i: usize, len: nat, k: nat)
    requires
        i < len,
        len <= usize::MAX,
    ensures
        next_cursor_iter(Some(i), len, k) == Some((((i + k) % (len as int)) as usize)),
    decreases k,
{
    let m = len as int;
    if k == 0 {
        lemma_small_mod(i as nat, len);
    } else {
        lemma_next_cursor_iter_mod(i, len, (k - 1) as nat);
        let j = ((i + k - 1) % m) as usize;
        lemma_mod_bound(i + k - 1, m);
        lemma_add_mod_noop_right(1, i + k - 1, m);
        if j + 1 < len {
            lemma_small_mod((j + 1) as nat, len);
        } else {
            lemma_mod_self_0(m);
        }
    }
}

/// Cyclic invariant: on a non-empty list, advancing the cursor as many times
/// as the list has elements returns it to where it started.
pub proof fn lemma_next_full_cycle(i: usize, len: nat)
    requires
        i < len,
        len <= usize::MAX,
    ensures
        next_cursor_iter(Some(i), len, len) == Some(i),
{
    lemma_next_cursor_iter_mod(i, len, len);
    lemma_mod_add_multiples_vanish(i as int, len as int);
    lemma_small_mod(i as nat, len);
}

/// Clearing the selection and then advancing selects the first element of a
/// non-empty list.
pub proof fn lemma_unselect_then_next(len: nat)
    requires
        len > 0,
    ensures
        next_cursor(None, len) == Some(0usize),
{
}

} // verus!
