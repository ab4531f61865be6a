//! The menu's view-model: the result items, the selection cursor and the
//! current search text, together with the navigation rules that keep the
//! cursor in bounds.

use vstd::prelude::*;

verus! {

/// Where the selection cursor may legally stand: inside the list, or at 0
/// when the list is empty.
pub open spec fn selection_ok(selected: int, len: int) -> bool {
    if len == 0 {
        selected == 0
    } else {
        0 <= selected < len
    }
}

/// One step of keyboard navigation over the result list.
#[derive(Clone, Copy, Debug, PartialEq, Eq, Structural)]
pub enum NavKey {
    Up,
    Down,
}

/// The selection index after one navigation step: Up saturates at 0, Down
/// saturates at the last item.
pub open spec fn nav_step(selected: int, len: int, key: NavKey) -> int {
    match key {
        NavKey::Up => if selected == 0 { 0 } else { selected - 1 },
        NavKey::Down => if selected + 1 < len { selected + 1 } else if len == 0 { selected } else { len - 1 },
    }
}

/// The selection index after a whole sequence of navigation steps.
pub open spec fn nav_steps(selected: int, len: int, keys: Seq<NavKey>) -> int
    decreases keys.len(),
{
    if keys.len() == 0 {
        selected
    } else {
        nav_steps(nav_step(selected, len, keys[0]), len, keys.drop_first())
    }
}

/// However long the burst of Up/Down keys, the cursor never leaves
/// `[0, len)` (and stays at 0 on an empty list).
pub proof fn lemma_navigation_stays_in_bounds(selected: int, len: int, keys: Seq<NavKey>)
    requires
        selection_ok(selected, len),
    ensures
        selection_ok(nav_steps(selected, len, keys), len),
    decreases keys.len(),
{
    if keys.len() > 0 {
        lemma_navigation_stays_in_bounds(nav_step(selected, len, keys[0]), len, keys.drop_first());
    }
}

/// The application state a host renders from: an ordered result list, the
/// selection cursor into it, and the query text being edited.
pub struct AppState<Item> {
    pub items: Vec<Item>,
    pub selected: usize,
    pub search: String,
}

impl<Item> AppState<Item> {
    /// The cursor points at an existing item whenever there is one.
    pub open spec fn wf(self) -> bool {
        selection_ok(self.selected as int, self.items@.len() as int)
    }

    /// An empty menu: no items, cursor at 0, empty query.
    pub fn new() -> (s: Self)
        ensures
            s.wf(),
            s.items@ == Seq::<Item>::empty(),
            s.selected == 0,
            s.search@ == Seq::<char>::empty(),
    {
        AppState { items: Vec::new(), selected: 0, search: String::new() }
    }

    /// The runtime counterpart of `wf`, for unverified hosts that want to
    /// check the invariant before calling in.
    pub fn is_well_formed(&self) -> (b: bool)
        ensures
            b == self.wf(),
    {
        if self.items.len() == 0 {
            self.selected == 0
        } else {
            self.selected < self.items.len()
        }
    }

    /// Replaces the query text; items and cursor are untouched.
    pub fn set_search(&mut self, search: String)
        ensures
            final(self).search == search,
            final(self).items == old(self).items,
            final(self).selected == old(self).selected,
    {
        self.search = search
    }

    /// Installs a fresh result list and resets the cursor to the top.
    pub fn apply_results(&mut self, items: Vec<Item>)
        ensures
            final(self).items == items,
            final(self).selected == 0,
            final(self).search == old(self).search,
            final(self).wf(),
    {
        self.items = items;
        self.selected = 0;
    }

    /// Moves the cursor one item up, stopping at the top.
    pub fn select_up(&mut self)
        requires
            old(self).wf(),
        ensures
            final(self).selected == nav_step(
                old(self).selected as int,
                old(self).items@.len() as int,
                NavKey::Up,
            ),
            final(self).items == old(self).items,
            final(self).search == old(self).search,
            final(self).wf(),
    {
        if self.selected > 0 {
            self.selected = self.selected - 1;
        }
    }

    /// Moves the cursor one item down, stopping at the last item.
    pub fn select_down(&mut self)
        requires
            old(self).wf(),
        ensures
            final(self).selected == nav_step(
                old(self).selected as int,
                old(self).items@.len() as int,
                NavKey::Down,
            ),
            final(self).items == old(self).items,
            final(self).search == old(self).search,
            final(self).wf(),
    {
        let len = self.items.len();
        if len > 0 && self.selected < len - 1 {
            self.selected = self.selected + 1;
        }
    }

    /// Points the cursor at item `index`, ignoring an index past the end
    /// (as a stale selection report from a relaid-out list would be).
    pub fn select(&mut self, index: usize) -> (applied: bool)
        requires
            old(self).wf(),
        ensures
            applied == (index < old(self).items@.len()),
            applied ==> final(self).selected == index,
            !applied ==> final(self).selected == old(self).selected,
            final(self).items == old(self).items,
            final(self).search == old(self).search,
            final(self).wf(),
    {
        if index < self.items.len() {
            self.selected = index;
            true
        } else {
            false
        }
    }

    /// Commits the current selection: removes and returns the item under the
    /// cursor, or nothing when the list is empty. The cursor is pulled back
    /// in bounds if it was on the removed last item.
    pub fn commit(&mut self) -> (chosen: Option<Item>)
        requires
            old(self).wf(),
        ensures
            final(self).search == old(self).search,
            final(self).wf(),
            old(self).items@.len() > 0 ==> {
                &&& chosen == Some(old(self).items@[old(self).selected as int])
                &&& final(self).items@ == old(self).items@.remove(old(self).selected as int)
            },
            old(self).items@.len() == 0 ==> {
                &&& chosen is None
                &&& final(self).items == old(self).items
                &&& final(self).selected == old(self).selected
            },
    {
        if self.items.len() > self.selected {
            let item = self.items.remove(self.selected);
            if self.selected > 0 && self.selected >= self.items.len() {
                self.selected = self.items.len() - 1;
            }
            Some(item)
        } else {
            None
        }
    }
}

} // verus!
