//! A list with a cursor that wraps around at both ends.

use vstd::arithmetic::div_mod::{
    lemma_add_mod_noop, lemma_mod_add_multiples_vanish, lemma_small_mod,
};
use vstd::prelude::*;

verus! {

/// Mathematical model of a [`StatefulList`]: the items in display order and
/// the position of the cursor.
pub ghost struct ListModel<T> {
    pub items: Seq<T>,
    pub selected: Option<int>,
}

impl<T> ListModel<T> {
    /// A list has a cursor exactly when it has items, and the cursor is on
    /// one of them.
    pub open spec fn well_formed(self) -> bool {
        match self.selected {
            Some(i) => 0 <= i < self.items.len(),
            None => self.items.len() == 0,
        }
    }

    /// The list as it is right after construction: cursor on the first item,
    /// or no cursor when there is no item.
    pub open spec fn fresh(items: Seq<T>) -> Self {
        ListModel {
            items,
            selected: if items.len() > 0 {
                Some(0)
            } else {
                None
            },
        }
    }

    /// One step down: from the last item the cursor returns to the first.
    /// An empty list stays as it is.
    pub open spec fn next(self) -> Self {
        if self.items.len() == 0 {
            self
        } else {
            ListModel {
                items: self.items,
                selected: match self.selected {
                    Some(i) => if i >= self.items.len() - 1 {
                        Some(0)
                    } else {
                        Some(i + 1)
                    },
                    None => Some(0),
                },
            }
        }
    }

    /// One step up: from the first item the cursor goes to the last.
    /// An empty list stays as it is.
    pub open spec fn prev(self) -> Self {
        if self.items.len() == 0 {
            self
        } else {
            ListModel {
                items: self.items,
                selected: match self.selected {
                    Some(i) => if i <= 0 {
                        Some(self.items.len() - 1)
                    } else {
                        Some(i - 1)
                    },
                    None => Some(0),
                },
            }
        }
    }

    /// `n` steps down.
    pub open spec fn next_n(self, n: nat) -> Self
        decreases n,
    {
        if n == 0 {
            self
        } else {
            self.next().next_n((n - 1) as nat)
        }
    }

    /// `n` steps up.
    pub open spec fn prev_n(self, n: nat) -> Self
        decreases n,
    {
        if n == 0 {
            self
        } else {
            self.prev().prev_n((n - 1) as nat)
        }
    }

    /// The item under the cursor.
    pub open spec fn current(self) -> Option<T> {
        match self.selected {
            Some(i) => Some(self.items[i]),
            None => None,
        }
    }
}

/// An ordered list of items together with a cursor on one of them.
///
/// The items are fixed between two calls of [`StatefulList::replace_items`];
/// only the cursor moves.
pub struct StatefulList<T> {
    items: Vec<T>,
    state: Option<usize>,
}

impl<T> View for StatefulList<T> {
    type V = ListModel<T>;

    closed spec fn view(&self) -> ListModel<T> {
        ListModel {
            items: self.items@,
            selected: match self.state {
                Some(i) => Some(i as int),
                None => None,
            },
        }
    }
}

impl<T> StatefulList<T> {
    #[verifier::type_invariant]
    spec fn inv(self) -> bool {
        self@.well_formed()
    }

    /// Takes the items and puts the cursor on the first of them.
    pub fn new(items: Vec<T>) -> (list: StatefulList<T>)
        ensures
            list@ == ListModel::fresh(items@),
            list@.well_formed(),
    {
        let state = if items.len() > 0 {
            Some(0)
        } else {
            None
        };
        StatefulList { items, state }
    }

    /// Moves the cursor one item down, wrapping to the first.
    pub fn next(&mut self)
        ensures
            final(self)@ == old(self)@.next(),
            final(self)@.well_formed(),
    {
        proof {
            use_type_invariant(&*self);
        }
        let len: usize = self.items.len();
        if len > 0 {
            let idx = match self.state {
                Some(i) => if i >= len - 1 {
                    Some(0)
                } else {
                    Some(i + 1)
                },
                None => Some(0),
            };
            self.state = idx;
        }
    }

    /// Moves the cursor one item up, wrapping to the last.
    pub fn prev(&mut self)
        ensures
            final(self)@ == old(self)@.prev(),
            final(self)@.well_formed(),
    {
        proof {
            use_type_invariant(&*self);
        }
        let len: usize = self.items.len();
        if len > 0 {
            let idx = match self.state {
                Some(i) => if i == 0 {
                    Some(len - 1)
                } else {
                    Some(i - 1)
                },
                None => Some(0),
            };
            self.state = idx;
        }
    }

    /// The item under the cursor, if the list has any item.
    pub fn selected(&self) -> (item: Option<&T>)
        ensures
            self@.well_formed(),
            match item {
                Some(r) => self@.current() == Some(*r),
                None => self@.current() is None,
            },
    {
        proof {
            use_type_invariant(self);
        }
        match self.state {
            Some(i) => Some(&self.items[i]),
            None => None,
        }
    }

    /// The position of the cursor, if the list has any item.
    pub fn selected_index(&self) -> (index: Option<usize>)
        ensures
            self@.well_formed(),
            match index {
                Some(i) => self@.selected == Some(i as int),
                None => self@.selected is None,
            },
    {
        proof {
            use_type_invariant(self);
        }
        self.state
    }

    /// Swaps in a new sequence of items and puts the cursor on the first of
    /// them, whatever the old list held.
    pub fn replace_items(&mut self, items: Vec<T>)
        ensures
            final(self)@ == ListModel::fresh(items@),
            final(self)@.well_formed(),
    {
        let state = if items.len() > 0 {
            Some(0)
        } else {
            None
        };
        *self = StatefulList { items, state };
    }

    /// The items in display order.
    pub fn items(&self) -> (items: &Vec<T>)
        ensures
            items@ == self@.items,
    {
        &self.items
    }

    /// The number of items.
    pub fn len(&self) -> (n: usize)
        ensures
            n == self@.items.len(),
    {
        self.items.len()
    }

    /// Whether the list has no item.
    pub fn is_empty(&self) -> (empty: bool)
        ensures
            empty == (self@.items.len() == 0),
    {
        self.items.len() == 0
    }
}

/// After `n` steps down from position `i`, a list of `len` items has its
/// cursor on position `(i + n) % len`, and the same items as before.
pub proof fn lemma_next_n_position<T>(m: ListModel<T>, n: nat)
    requires
        m.well_formed(),
        m.items.len() > 0,
    ensures
        m.next_n(n).items == m.items,
        m.next_n(n).selected == Some((m.selected->0 + n) % (m.items.len() as int)),
        m.next_n(n).well_formed(),
    decreases n,
{
    let len = m.items.len() as int;
    let i = m.selected->0;
    if n == 0 {
        lemma_small_mod(i as nat, len as nat);
    } else {
        let step = m.next();
        let j = step.selected->0;
        assert(j == (i + 1) % len) by {
            if i + 1 < len {
                lemma_small_mod((i + 1) as nat, len as nat);
            } else {
                lemma_mod_add_multiples_vanish(0, len);
                lemma_small_mod(0, len as nat);
            }
        }
        lemma_next_n_position(step, (n - 1) as nat);
        assert((j + (n - 1)) % len == (i + n) % len) by {
            lemma_add_mod_noop(i + 1, n - 1, len);
            lemma_add_mod_noop(j, n - 1, len);
            lemma_small_mod(j as nat, len as nat);
        }
    }
}

/// Stepping down as many times as a non-empty list has items brings the
/// cursor back to where it started.
pub proof fn lemma_next_full_circle<T>(m: ListModel<T>)
    requires
        m.well_formed(),
        m.items.len() > 0,
    ensures
        m.next_n(m.items.len()) == m,
{
    let len = m.items.len() as int;
    let i = m.selected->0;
    lemma_next_n_position(m, m.items.len());
    lemma_mod_add_multiples_vanish(i, len);
    lemma_small_mod(i as nat, len as nat);
}

/// On a non-empty list a step down followed by a step up leaves the cursor
/// where it was, and so does a step up followed by a step down.
pub proof fn lemma_next_prev_inverse<T>(m: ListModel<T>)
    requires
        m.well_formed(),
        m.items.len() > 0,
    ensures
        m.next().prev() == m,
        m.prev().next() == m,
{
}

/// A list made from no items has no cursor, and no step in either direction,
/// nor any number of them, changes it.
pub proof fn lemma_empty_list_is_inert<T>(items: Seq<T>, n: nat)
    requires
        items.len() == 0,
    ensures
        ListModel::fresh(items).selected is None,
        ListModel::fresh(items).next() == ListModel::fresh(items),
        ListModel::fresh(items).prev() == ListModel::fresh(items),
        ListModel::fresh(items).next_n(n) == ListModel::fresh(items),
        ListModel::fresh(items).prev_n(n) == ListModel::fresh(items),
    decreases n,
{
    if n > 0 {
        lemma_empty_list_is_inert(items, (n - 1) as nat);
    }
}

/// Whatever sequence is put into a list, the cursor that results is never at
/// or past the end of it; and a step in either direction keeps it so.
pub proof fn lemma_cursor_in_bounds<T>(items: Seq<T>)
    ensures
        ListModel::fresh(items).well_formed(),
        ListModel::fresh(items).selected matches Some(i) ==> 0 <= i < items.len(),
        forall|m: ListModel<T>| #[trigger]
            m.well_formed() ==> m.next().well_formed() && m.prev().well_formed(),
{
}

} // verus!
