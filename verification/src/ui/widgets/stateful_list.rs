//! A list with a cursor.

use vstd::prelude::*;

verus! {

/// A list of items, one of which may be selected.
pub struct StatefulList<T> {
    /// The index of the selected item.
    pub selected: Option<usize>,
    pub items: Vec<T>,
}

/// The cursor after a step down a list of `len` items: onto the first
/// item from nowhere and from the last item, else onto the item after.
/// An empty list has no cursor.
pub open spec fn after_next(selected: Option<usize>, len: nat) -> Option<usize> {
    if len == 0 {
        None
    } else {
        match selected {
            Some(i) => if i + 1 >= len {
                Some(0)
            } else {
                Some((i + 1) as usize)
            },
            None => Some(0),
        }
    }
}

/// The cursor after a step up a list of `len` items: onto the first item
/// from nowhere, onto the last item from the first one and from beyond
/// the list, else onto the item before.
pub open spec fn after_previous(selected: Option<usize>, len: nat) -> Option<usize> {
    if len == 0 {
        None
    } else {
        match selected {
            Some(i) => if i == 0 || i > len {
                Some((len - 1) as usize)
            } else {
                Some((i - 1) as usize)
            },
            None => Some(0),
        }
    }
}

impl<T> StatefulList<T> {
    /// The cursor is on an item of the list, or nowhere.
    pub open spec fn wf(self) -> bool {
        self.selected matches Some(i) ==> i < self.items.len()
    }

    /// The list of `items`, with nothing selected.
    pub fn with_items(items: Vec<T>) -> (list: StatefulList<T>)
        ensures
            list.items == items,
            list.selected is None,
            list.wf(),
    {
        StatefulList { selected: None, items }
    }

    /// Moves the cursor one item down, around the end of the list.
    pub fn next(&mut self)
        ensures
            final(self).items == old(self).items,
            final(self).selected == after_next(old(self).selected, old(self).items.len() as nat),
            final(self).wf(),
    {
        let len = self.items.len();
        if len == 0 {
            self.selected = None;
            return ;
        }
        let i = match self.selected {
            Some(i) => {
                if i >= len - 1 {
                    0
                } else {
                    i + 1
                }
            },
            None => 0,
        };
        self.selected = Some(i);
    }

    /// Moves the cursor one item up, around the start of the list.
    pub fn previous(&mut self)
        ensures
            final(self).items == old(self).items,
            final(self).selected == after_previous(
                old(self).selected,
                old(self).items.len() as nat,
            ),
            final(self).wf(),
    {
        let len = self.items.len();
        if len == 0 {
            self.selected = None;
            return ;
        }
        let i = match self.selected {
            Some(i) => {
                if i == 0 || i > len {
                    len - 1
                } else {
                    i - 1
                }
            },
            None => 0,
        };
        self.selected = Some(i);
    }
}

} // verus!
