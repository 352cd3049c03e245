//! Scrollable list state: the selected row, the number of rows, and the
//! table's own selection and scroll offset that the renderer reads and
//! updates.
use vstd::prelude::*;

verus! {

/// The selection and scroll offset of a rendered table.
#[derive(Debug, Clone, Copy, PartialEq, Eq, Structural)]
pub struct TableState {
    pub selected: Option<usize>,
    pub offset: usize,
}

impl TableState {
    pub fn new() -> (r: Self)
        ensures
            r == (TableState { selected: None, offset: 0 }),
    {
        TableState { selected: None, offset: 0 }
    }

    /// The selected row, if any.
    pub fn selected(&self) -> (r: Option<usize>)
        ensures
            r == self.selected,
    {
        self.selected
    }

    /// The index of the first row shown.
    pub fn offset(&self) -> (r: usize)
        ensures
            r == self.offset,
    {
        self.offset
    }

    /// Selects a row; clearing the selection also scrolls back to the top.
    pub fn select(&mut self, index: Option<usize>)
        ensures
            final(self).selected == index,
            final(self).offset == if index is None {
                0
            } else {
                old(self).offset
            },
    {
        self.selected = index;
        if index.is_none() {
            self.offset = 0;
        }
    }

    /// Sets the index of the first row shown.
    pub fn set_offset(&mut self, offset: usize)
        ensures
            *final(self) == (TableState { offset, ..*old(self) }),
    {
        self.offset = offset;
    }
}

/// Generic scrollable list state: selection kept within the list's bounds.
#[derive(Debug, Clone, Copy)]
pub struct ScrollState {
    selected: usize,
    len: usize,
    table_state: TableState,
}

/// The abstract state of a scrollable list.
pub struct ScrollView {
    pub selected: nat,
    pub len: nat,
    pub table: TableState,
}

impl View for ScrollState {
    type V = ScrollView;

    closed spec fn view(&self) -> ScrollView {
        ScrollView { selected: self.selected as nat, len: self.len as nat, table: self.table_state }
    }
}

/// A list's selection is within its bounds: the first row of an empty
/// list, otherwise one of its rows.
pub open spec fn in_bounds(selected: nat, len: nat) -> bool {
    if len == 0 {
        selected == 0
    } else {
        selected < len
    }
}

/// `a - b`, or 0 when `b` exceeds `a`.
pub open spec fn sat_sub(a: nat, b: nat) -> nat {
    if a >= b {
        (a - b) as nat
    } else {
        0
    }
}

/// The smaller of two naturals.
pub open spec fn min_nat(a: nat, b: nat) -> nat {
    if a <= b {
        a
    } else {
        b
    }
}

/// The table after selecting `sel`.
pub open spec fn synced(t: TableState, sel: nat) -> TableState {
    TableState { selected: Some(sel as usize), ..t }
}


impl ScrollView {
    /// The state after `set_len(len)`: the selection is clamped into the new
    /// bounds and the table follows it.
    pub open spec fn with_len(self, len: nat) -> ScrollView {
        let sel = if len == 0 {
            0
        } else {
            min_nat(self.selected, (len - 1) as nat)
        };
        ScrollView { selected: sel, len, table: synced(self.table, sel) }
    }

    /// The state after selecting `sel`.
    pub open spec fn with_selected(self, sel: nat) -> ScrollView {
        ScrollView { selected: sel, len: self.len, table: synced(self.table, sel) }
    }

    /// The state after `move_up`.
    pub open spec fn moved_up(self) -> ScrollView {
        if self.len == 0 {
            self
        } else {
            self.with_selected(sat_sub(self.selected, 1))
        }
    }

    /// The state after `move_down`.
    pub open spec fn moved_down(self) -> ScrollView {
        if self.len == 0 {
            self
        } else {
            self.with_selected(min_nat(self.selected + 1, (self.len - 1) as nat))
        }
    }

    /// The state after `move_top` (or `reset`).
    pub open spec fn at_top(self) -> ScrollView {
        self.with_selected(0)
    }

    /// The state after `move_bottom`.
    pub open spec fn at_bottom(self) -> ScrollView {
        if self.len == 0 {
            self
        } else {
            self.with_selected((self.len - 1) as nat)
        }
    }

    /// The state after `page_up(n)`.
    pub open spec fn paged_up(self, n: nat) -> ScrollView {
        self.with_selected(sat_sub(self.selected, n))
    }

    /// The state after `page_down(n)`.
    pub open spec fn paged_down(self, n: nat) -> ScrollView {
        if self.len == 0 {
            self
        } else {
            self.with_selected(min_nat(self.selected + n, (self.len - 1) as nat))
        }
    }
}

impl ScrollState {
    pub fn new() -> (r: Self)
        ensures
            r@.selected == 0,
            r@.len == 0,
            r@.table == (TableState { selected: Some(0), offset: 0 }),
            in_bounds(r@.selected, r@.len),
    {
        let mut table_state = TableState::new();
        table_state.select(Some(0));
        ScrollState { selected: 0, len: 0, table_state }
    }

    /// Update the total number of items, clamping the selection.
    pub fn set_len(&mut self, len: usize)
        ensures
            final(self)@ == old(self)@.with_len(len as nat),
            final(self)@.len == len,
            final(self)@.selected == if len == 0 {
                0
            } else {
                min_nat(old(self)@.selected, (len - 1) as nat)
            },
            final(self)@.table == synced(old(self)@.table, final(self)@.selected),
            in_bounds(final(self)@.selected, final(self)@.len),
    {
        let selected = if len == 0 {
            0
        } else if self.selected >= len {
            len - 1
        } else {
            self.selected
        };
        let mut t = self.table_state;
        t.select(Some(selected));
        *self = ScrollState { selected, len, table_state: t };
    }

    pub fn selected(&self) -> (r: usize)
        ensures
            r == self@.selected,
    {
        self.selected
    }

    pub fn len(&self) -> (r: usize)
        ensures
            r == self@.len,
    {
        self.len
    }

    pub fn is_empty(&self) -> (r: bool)
        ensures
            r == (self@.len == 0),
    {
        self.len == 0
    }

    fn set_selected(&mut self, selected: usize)
        ensures
            final(self)@.selected == selected,
            final(self)@.len == old(self)@.len,
            final(self)@.table == synced(old(self)@.table, selected as nat),
    {
        let mut t = self.table_state;
        t.select(Some(selected));
        *self = ScrollState { selected, len: self.len, table_state: t };
    }

    /// Move the selection up one row (nothing happens on an empty list).
    pub fn move_up(&mut self)
        ensures
            final(self)@ == old(self)@.moved_up(),
            old(self)@.len == 0 ==> final(self)@ == old(self)@,
            old(self)@.len > 0 ==> final(self)@.selected == sat_sub(old(self)@.selected, 1)
                && final(self)@.len == old(self)@.len && final(self)@.table == synced(
                old(self)@.table,
                final(self)@.selected,
            ),
            in_bounds(old(self)@.selected, old(self)@.len) ==> in_bounds(final(self)@.selected, final(self)@.len),
    {
        if self.len == 0 {
            return ;
        }
        let s = if self.selected >= 1 {
            self.selected - 1
        } else {
            0
        };
        self.set_selected(s);
    }

    /// Move the selection down one row, stopping at the last.
    pub fn move_down(&mut self)
        ensures
            final(self)@ == old(self)@.moved_down(),
            old(self)@.len == 0 ==> final(self)@ == old(self)@,
            old(self)@.len > 0 ==> final(self)@.selected == min_nat(
                old(self)@.selected + 1,
                (old(self)@.len - 1) as nat,
            ) && final(self)@.len == old(self)@.len && final(self)@.table == synced(
                old(self)@.table,
                final(self)@.selected,
            ),
            in_bounds(old(self)@.selected, old(self)@.len) ==> in_bounds(final(self)@.selected, final(self)@.len),
    {
        if self.len == 0 {
            return ;
        }
        let last = self.len - 1;
        let s = if self.selected < last {
            self.selected + 1
        } else {
            last
        };
        self.set_selected(s);
    }

    /// Select the first row.
    pub fn move_top(&mut self)
        ensures
            final(self)@ == old(self)@.at_top(),
            final(self)@.selected == 0,
            final(self)@.len == old(self)@.len,
            final(self)@.table == synced(old(self)@.table, 0),
            in_bounds(final(self)@.selected, final(self)@.len),
    {
        self.set_selected(0);
    }

    /// Select the last row (nothing happens on an empty list).
    pub fn move_bottom(&mut self)
        ensures
            final(self)@ == old(self)@.at_bottom(),
            old(self)@.len == 0 ==> final(self)@ == old(self)@,
            old(self)@.len > 0 ==> final(self)@.selected == old(self)@.len - 1
                && final(self)@.len == old(self)@.len && final(self)@.table == synced(
                old(self)@.table,
                final(self)@.selected,
            ),
            in_bounds(old(self)@.selected, old(self)@.len) ==> in_bounds(final(self)@.selected, final(self)@.len),
    {
        if self.len == 0 {
            return ;
        }
        let s = self.len - 1;
        self.set_selected(s);
    }

    /// Move the selection up by a page, stopping at the first row.
    pub fn page_up(&mut self, page_size: usize)
        ensures
            final(self)@ == old(self)@.paged_up(page_size as nat),
            final(self)@.selected == sat_sub(old(self)@.selected, page_size as nat),
            final(self)@.len == old(self)@.len,
            final(self)@.table == synced(old(self)@.table, final(self)@.selected),
            in_bounds(old(self)@.selected, old(self)@.len) ==> in_bounds(final(self)@.selected, final(self)@.len),
    {
        let s = if self.selected >= page_size {
            self.selected - page_size
        } else {
            0
        };
        self.set_selected(s);
    }

    /// Move the selection down by a page, stopping at the last row
    /// (nothing happens on an empty list).
    pub fn page_down(&mut self, page_size: usize)
        ensures
            final(self)@ == old(self)@.paged_down(page_size as nat),
            old(self)@.len == 0 ==> final(self)@ == old(self)@,
            old(self)@.len > 0 ==> final(self)@.selected == min_nat(
                old(self)@.selected + page_size as nat,
                (old(self)@.len - 1) as nat,
            ) && final(self)@.len == old(self)@.len && final(self)@.table == synced(
                old(self)@.table,
                final(self)@.selected,
            ),
            in_bounds(old(self)@.selected, old(self)@.len) ==> in_bounds(final(self)@.selected, final(self)@.len),
    {
        if self.len == 0 {
            return ;
        }
        let last = self.len - 1;
        let s = if self.selected <= last && page_size <= last - self.selected {
            self.selected + page_size
        } else {
            last
        };
        self.set_selected(s);
    }

    /// The table state that the renderer reads and updates.
    pub fn table_state_mut(&mut self) -> (r: &mut TableState)
        ensures
            *r == old(self)@.table,
            final(self)@.selected == old(self)@.selected,
            final(self)@.len == old(self)@.len,
            final(self)@.table == *final(r),
    {
        &mut self.table_state
    }

    /// Reset the selection to the first row.
    pub fn reset(&mut self)
        ensures
            final(self)@ == old(self)@.at_top(),
            final(self)@.selected == 0,
            final(self)@.len == old(self)@.len,
            final(self)@.table == synced(old(self)@.table, 0),
            in_bounds(final(self)@.selected, final(self)@.len),
    {
        self.set_selected(0);
    }
}

impl Default for ScrollState {
    fn default() -> (r: Self)
        ensures
            r@.selected == 0,
            r@.len == 0,
            r@.table == (TableState { selected: Some(0), offset: 0 }),
    {
        Self::new()
    }
}

} // verus!
