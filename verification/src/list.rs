//! A list of items with a cursor that goes round.

use vstd::prelude::*;
use vstd::string::StringExecFns;

verus! {

/// A list and the index of its selected item, if one is selected.
#[derive(Debug)]
pub struct ListObj {
    pub items: Vec<String>,
    pub selected: Option<usize>,
}

/// The index after `selected` in a list of `len` items, going round to the
/// first behind the last; the first where none is selected.
pub open spec fn next_index(selected: Option<usize>, len: nat) -> usize {
    match selected {
        Some(i) => if i + 1 >= len {
            0
        } else {
            (i + 1) as usize
        },
        None => 0,
    }
}

/// The index before `selected` in a list of `len` items, going round to the
/// last in front of the first; the first where none is selected or the list
/// is empty.
pub open spec fn previous_index(selected: Option<usize>, len: nat) -> usize {
    match selected {
        Some(i) => if i == 0 {
            if len == 0 {
                0
            } else {
                (len - 1) as usize
            }
        } else {
            (i - 1) as usize
        },
        None => 0,
    }
}

/// The index after `selected`.
pub fn step_next(selected: Option<usize>, len: usize) -> (r: usize)
    ensures
        r == next_index(selected, len as nat),
{
    match selected {
        Some(i) => if i >= len || i + 1 >= len {
            0
        } else {
            i + 1
        },
        None => 0,
    }
}

/// The index before `selected`.
pub fn step_previous(selected: Option<usize>, len: usize) -> (r: usize)
    ensures
        r == previous_index(selected, len as nat),
{
    match selected {
        Some(i) => if i == 0 {
            if len == 0 {
                0
            } else {
                len - 1
            }
        } else {
            i - 1
        },
        None => 0,
    }
}

impl ListObj {
    /// A list of the first five letters, with none selected.
    pub fn new() -> (r: ListObj)
        ensures
            r.items@.len() == 5,
            r.items@[0]@ == "a"@,
            r.items@[1]@ == "b"@,
            r.items@[2]@ == "c"@,
            r.items@[3]@ == "d"@,
            r.items@[4]@ == "e"@,
            r.selected is None,
    {
        let mut items: Vec<String> = Vec::new();
        items.push(String::from_str("a"));
        items.push(String::from_str("b"));
        items.push(String::from_str("c"));
        items.push(String::from_str("d"));
        items.push(String::from_str("e"));
        ListObj { items, selected: None }
    }

    /// Appends an item.
    pub fn add_item(&mut self, item: String)
        ensures
            final(self).items@ == old(self).items@.push(item),
            final(self).selected == old(self).selected,
    {
        self.items.push(item);
    }

    /// Selects the next item, the first behind the last.
    pub fn next(&mut self)
        ensures
            final(self).selected == Some(next_index(old(self).selected, old(self).items@.len())),
            final(self).items == old(self).items,
    {
        self.selected = Some(step_next(self.selected, self.items.len()));
    }

    /// Selects the item before, the last in front of the first.
    pub fn previous(&mut self)
        ensures
            final(self).selected == Some(
                previous_index(old(self).selected, old(self).items@.len()),
            ),
            final(self).items == old(self).items,
    {
        self.selected = Some(step_previous(self.selected, self.items.len()));
    }

    /// Selects no item.
    pub fn unselect(&mut self)
        ensures
            final(self).selected is None,
            final(self).items == old(self).items,
    {
        self.selected = None;
    }
}

} // verus!
