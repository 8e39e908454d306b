//! A list of items with one selected row, as shown in a table.
use vstd::prelude::*;

verus! {

/// Items and the index of the selected one.
pub struct StatefulList<T> {
    /// The selected row, if any.
    pub selected: Option<usize>,
    pub items: Vec<T>,
}

/// The content of a list: the selection and the items.
pub struct ListView<T> {
    pub selected: Option<usize>,
    pub items: Seq<T>,
}

impl<T> View for StatefulList<T> {
    type V = ListView<T>;

    open spec fn view(&self) -> ListView<T> {
        ListView { selected: self.selected, items: self.items@ }
    }
}

/// The selection after moving down one row in a list of `len` rows (wrapping to the top).
pub open spec fn next_selection(selected: Option<usize>, len: nat) -> Option<usize> {
    if len == 0 {
        selected
    } else {
        match selected {
            Some(i) => if i >= len - 1 { Some(0usize) } else { Some((i + 1) as usize) },
            None => Some(0usize),
        }
    }
}

/// The selection after moving up one row in a list of `len` rows (wrapping to the bottom).
pub open spec fn previous_selection(selected: Option<usize>, len: nat) -> Option<usize> {
    if len == 0 {
        selected
    } else {
        match selected {
            Some(i) => if i == 0 { Some((len - 1) as usize) } else { Some((i - 1) as usize) },
            None => Some(0usize),
        }
    }
}

/// The selection kept when the items are replaced by `len` new ones: one past the end, or
/// none at all, becomes the first row.
pub open spec fn kept_selection(selected: Option<usize>, len: nat) -> Option<usize> {
    match selected {
        Some(i) => if i >= len { Some(0usize) } else { Some(i) },
        None => Some(0usize),
    }
}

impl<T> StatefulList<T> {
    /// The selection, if there is one, is a row of the list or the first row.
    pub open spec fn wf(&self) -> bool {
        self.selected matches Some(i) ==> (i == 0 || i < self.items@.len())
    }

    /// A list of `items` with the first row selected.
    pub fn new(items: Vec<T>) -> (l: Self)
        ensures
            l.items@ == items@,
            l.selected == Some(0usize),
            l.wf(),
    {
        Self { selected: Some(0), items }
    }

    /// Replaces the items, keeping the selection when it still names a row.
    pub fn set_items(&mut self, items: Vec<T>)
        ensures
            final(self).items@ == items@,
            final(self).selected == kept_selection(old(self).selected, items@.len()),
            final(self).wf(),
    {
        self.items = items;
        // clamp selection to new length, or select first if nothing selected
        match self.selected {
            Some(i) => {
                if i >= self.items.len() {
                    self.selected = Some(0);
                }
            },
            None => {
                self.selected = Some(0);
            },
        }
    }

    /// Selects the next row, wrapping from the last row to the first.
    pub fn next(&mut self)
        ensures
            final(self).items@ == old(self).items@,
            final(self).selected == next_selection(old(self).selected, old(self).items@.len()),
            old(self).wf() ==> final(self).wf(),
    {
        if self.items.len() == 0 {
            return;  // Don't do anything if list is empty
        }
        let i = match self.selected {
            Some(i) => {
                if i >= self.items.len() - 1 {
                    0
                } else {
                    i + 1
                }
            },
            None => 0,
        };
        self.selected = Some(i);
    }

    /// Selects the previous row, wrapping from the first row to the last.
    pub fn previous(&mut self)
        ensures
            final(self).items@ == old(self).items@,
            final(self).selected == previous_selection(old(self).selected, old(self).items@.len()),
            old(self).wf() ==> final(self).wf(),
    {
        if self.items.len() == 0 {
            return;  // Don't do anything if list is empty
        }
        let i = match self.selected {
            Some(i) => {
                if i == 0 {
                    self.items.len() - 1
                } else {
                    i - 1
                }
            },
            None => 0,
        };
        self.selected = Some(i);
    }
}

/// Moving down and then up a list returns to the row one started from, provided a row of the
/// list was selected.
pub proof fn lemma_next_then_previous(selected: Option<usize>, len: nat)
    requires
        selected matches Some(i) && i < len,
        len <= usize::MAX,
    ensures
        previous_selection(next_selection(selected, len), len) == selected,
{
}

/// Moving up and then down a list returns to the row one started from, provided a row of the
/// list was selected.
pub proof fn lemma_previous_then_next(selected: Option<usize>, len: nat)
    requires
        selected matches Some(i) && i < len,
        len <= usize::MAX,
    ensures
        next_selection(previous_selection(selected, len), len) == selected,
{
}

} // verus!
