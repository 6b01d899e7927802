use vstd::prelude::*;

verus! {

/// Items shown as a list, with at most one of them selected.
#[derive(Debug, Clone, PartialEq, Eq)]
pub struct StatefulList<T> {
    items: Vec<T>,
    selected: Option<usize>,
}

/// The selection that a list of `len` items starts with: the first item, if any.
pub open spec fn initial_selection(len: int) -> Option<usize> {
    if len == 0 {
        None
    } else {
        Some(0usize)
    }
}

/// The selection after moving one item back, wrapping to the last item.
pub open spec fn prev_selection(sel: Option<usize>, len: int) -> Option<usize> {
    if len == 0 {
        sel
    } else {
        match sel {
            Some(i) => if i == 0 {
                Some((len - 1) as usize)
            } else {
                Some((i - 1) as usize)
            },
            None => Some((len - 1) as usize),
        }
    }
}

/// The selection after moving one item forward, wrapping to the first item.
pub open spec fn next_selection(sel: Option<usize>, len: int) -> Option<usize> {
    if len == 0 {
        sel
    } else {
        match sel {
            Some(i) => if i >= len - 1 {
                Some(0usize)
            } else {
                Some((i + 1) as usize)
            },
            None => Some(0usize),
        }
    }
}

impl<T> StatefulList<T> {
    pub closed spec fn spec_items(&self) -> Seq<T> {
        self.items@
    }

    pub closed spec fn selection(&self) -> Option<usize> {
        self.selected
    }

    /// The selection, when there is one, points at an item.
    pub open spec fn wf(&self) -> bool {
        self.selection() matches Some(i) ==> i < self.spec_items().len()
    }

    pub fn with_items(items: Vec<T>) -> (r: Self)
        ensures
            r.spec_items() == items@,
            r.selection() == initial_selection(items@.len() as int),
            r.wf(),
    {
        let selected = if items.len() == 0 {
            None
        } else {
            Some(0)
        };
        StatefulList { items, selected }
    }

    pub fn new() -> (r: Self)
        ensures
            r.spec_items() == Seq::<T>::empty(),
            r.selection() == None::<usize>,
            r.wf(),
    {
        StatefulList { items: Vec::new(), selected: None }
    }

    pub fn select_prev(&mut self)
        ensures
            final(self).spec_items() == old(self).spec_items(),
            final(self).selection() == prev_selection(
                old(self).selection(),
                old(self).spec_items().len() as int,
            ),
            old(self).wf() ==> final(self).wf(),
    {
        let len = self.items.len();
        if len == 0 {
            return ;
        }
        let i = match self.selected {
            Some(idx) => if idx == 0 {
                len - 1
            } else {
                idx - 1
            },
            None => len - 1,
        };
        self.selected = Some(i);
    }

    pub fn select_next(&mut self)
        ensures
            final(self).spec_items() == old(self).spec_items(),
            final(self).selection() == next_selection(
                old(self).selection(),
                old(self).spec_items().len() as int,
            ),
            final(self).spec_items().len() > 0 ==> final(self).wf(),
            old(self).wf() ==> final(self).wf(),
    {
        let len = self.items.len();
        if len == 0 {
            return ;
        }
        let i = match self.selected {
            Some(idx) => if idx >= len - 1 {
                0
            } else {
                idx + 1
            },
            None => 0,
        };
        self.selected = Some(i);
    }

    /// The selected item, if the selection points at one.
    pub fn get_selected(&self) -> (r: Option<&T>)
        ensures
            match r {
                Some(x) => self.selection() matches Some(i) && i < self.spec_items().len()
                    && *x == self.spec_items()[i as int],
                None => !(self.selection() matches Some(i) && i < self.spec_items().len()),
            },
    {
        match self.selected {
            Some(idx) => if idx < self.items.len() {
                Some(&self.items[idx])
            } else {
                None
            },
            None => None,
        }
    }

    /// Replaces the items and selects the first one, if any.
    pub fn set(&mut self, items: Vec<T>)
        ensures
            final(self).spec_items() == items@,
            final(self).selection() == initial_selection(items@.len() as int),
            final(self).wf(),
    {
        self.selected = if items.len() == 0 {
            None
        } else {
            Some(0)
        };
        self.items = items;
    }

    pub fn items(&self) -> (r: &Vec<T>)
        ensures
            r@ == self.spec_items(),
    {
        &self.items
    }

    pub fn selected(&self) -> (r: Option<usize>)
        ensures
            r == self.selection(),
    {
        self.selected
    }
}

} // verus!
