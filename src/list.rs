use vstd::prelude::*;

verus! {

/// The index that `next` moves to from `sel` in a list of `len` items.
pub open spec fn next_index(sel: Option<usize>, len: nat) -> Option<usize> {
    if len == 0 {
        sel
    } else {
        match sel {
            Some(i) => if i + 1 >= len { Some(0usize) } else { Some((i + 1) as usize) },
            None => Some(0usize),
        }
    }
}

/// The index that `previous` moves to from `sel` in a list of `len` items.
pub open spec fn previous_index(sel: Option<usize>, len: nat) -> Option<usize> {
    if len == 0 {
        sel
    } else {
        match sel {
            Some(i) => if i == 0 || i >= len { Some((len - 1) as usize) } else { Some((i - 1) as usize) },
            None => Some(0usize),
        }
    }
}

/// An ordered sequence of items with at most one selected row.
pub struct StatefulList<T> {
    pub items: Vec<T>,
    pub selected: Option<usize>,
}

impl<T> StatefulList<T> {
    /// The selection, when present, points at an item.
    pub open spec fn wf(&self) -> bool {
        match self.selected {
            Some(i) => i < self.items@.len(),
            None => true,
        }
    }

    /// A list of `items` with nothing selected.
    pub fn with_items(items: Vec<T>) -> (r: Self)
        ensures
            r.items == items,
            r.selected is None,
            r.wf(),
    {
        StatefulList { items, selected: None }
    }

    pub fn len(&self) -> (r: usize)
        ensures
            r == self.items@.len(),
    {
        self.items.len()
    }

    pub fn is_empty(&self) -> (r: bool)
        ensures
            r == (self.items@.len() == 0),
    {
        self.items.len() == 0
    }

    pub fn selected(&self) -> (r: Option<usize>)
        ensures
            r == self.selected,
    {
        self.selected
    }

    pub fn select(&mut self, sel: Option<usize>)
        ensures
            final(self).items == old(self).items,
            final(self).selected == sel,
    {
        self.selected = sel;
    }

    /// Moves the selection one row down, wrapping to the first row past the
    /// end; does nothing on an empty list.
    pub fn next(&mut self)
        ensures
            final(self).items == old(self).items,
            final(self).selected == next_index(old(self).selected, old(self).items@.len()),
            old(self).wf() ==> final(self).wf(),
    {
        let len = self.items.len();
        if len > 0 {
            let i: usize = match self.selected {
                Some(i) => if i >= len - 1 { 0 } else { i + 1 },
                None => 0,
            };
            self.selected = Some(i);
        }
    }

    /// Moves the selection one row up, wrapping to the last row before the
    /// first; does nothing on an empty list.
    pub fn previous(&mut self)
        ensures
            final(self).items == old(self).items,
            final(self).selected == previous_index(old(self).selected, old(self).items@.len()),
            old(self).wf() ==> final(self).wf(),
    {
        let len = self.items.len();
        if len > 0 {
            let i: usize = match self.selected {
                Some(i) => if i == 0 || i >= len { len - 1 } else { i - 1 },
                None => 0,
            };
            self.selected = Some(i);
        }
    }
}

/// On a non-empty list, moving down then up, or up then down, brings a
/// present selection back to the row it started on.
pub proof fn lemma_next_previous_round_trip(sel: usize, len: nat)
    requires
        sel < len,
        len <= usize::MAX,
    ensures
        previous_index(next_index(Some(sel), len), len) == Some(sel),
        next_index(previous_index(Some(sel), len), len) == Some(sel),
{
}

/// On an empty list, moving in either direction leaves the selection as it
/// was; a list that has nothing selected keeps nothing selected.
pub proof fn lemma_empty_list_moves(sel: Option<usize>)
    ensures
        next_index(sel, 0) == sel,
        previous_index(sel, 0) == sel,
        next_index(None, 0) is None,
        previous_index(None, 0) is None,
{
}

} // verus!
