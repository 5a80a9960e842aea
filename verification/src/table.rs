//! A table of rows with a cursor that goes round.

use crate::list::{next_index, previous_index, step_next, step_previous};
use vstd::prelude::*;
use vstd::string::StrSliceExecFns;

verus! {

/// A table: its headers, its rows, each as wide as the headers, and the
/// index of its selected row, if one is selected.
#[derive(Debug)]
pub struct TableObj {
    pub items: Vec<Vec<String>>,
    pub headers: Vec<String>,
    pub selected: Option<usize>,
    pub num_of_cols: usize,
}

/// The number of line breaks among the first `n` characters of a text.
pub open spec fn line_breaks(text: Seq<char>, n: nat) -> nat
    decreases n,
{
    if n == 0 {
        0
    } else if text[n - 1] == '\n' {
        line_breaks(text, (n - 1) as nat) + 1
    } else {
        line_breaks(text, (n - 1) as nat)
    }
}

/// The most line breaks that one of the first `n` cells of a row has.
pub open spec fn most_breaks(row: Seq<String>, n: nat) -> nat
    decreases n,
{
    if n == 0 {
        0
    } else if line_breaks(row[n - 1]@, row[n - 1]@.len()) > most_breaks(row, (n - 1) as nat) {
        line_breaks(row[n - 1]@, row[n - 1]@.len())
    } else {
        most_breaks(row, (n - 1) as nat)
    }
}

/// The number of line breaks in a text.
fn count_breaks(text: &str) -> (r: usize)
    ensures
        r == line_breaks(text@, text@.len()),
{
    let n = text.unicode_len();
    let mut count: usize = 0;
    let mut i: usize = 0;
    while i < n
        invariant
            i <= n,
            n == text@.len(),
            count <= i,
            count == line_breaks(text@, i as nat),
        decreases n - i,
    {
        if text.get_char(i) == '\n' {
            count = count + 1;
        }
        i = i + 1;
    }
    count
}

/// The height of a row: one line more than the most line breaks that one of
/// its cells has, held to the range of the type.
pub fn row_height(row: &Vec<String>) -> (r: u16)
    ensures
        r == if most_breaks(row@, row@.len()) + 1 > u16::MAX {
            u16::MAX as int
        } else {
            most_breaks(row@, row@.len()) as int + 1
        },
{
    let n = row.len();
    let mut most: usize = 0;
    let mut i: usize = 0;
    while i < n
        invariant
            i <= n,
            n == row@.len(),
            most == most_breaks(row@, i as nat),
        decreases n - i,
    {
        let breaks = count_breaks(row[i].as_str());
        if breaks > most {
            most = breaks;
        }
        i = i + 1;
    }
    if most >= 0xffff {
        0xffff
    } else {
        (most + 1) as u16
    }
}

impl TableObj {
    /// A table with headers and no row.
    pub fn new(headers: Vec<String>) -> (r: TableObj)
        ensures
            r.items@.len() == 0,
            r.headers == headers,
            r.selected is None,
            r.num_of_cols == headers@.len(),
    {
        let num_of_cols = headers.len();
        TableObj { items: Vec::new(), headers, selected: None, num_of_cols }
    }

    /// Appends a row that is as wide as the headers; any other row is
    /// refused.
    pub fn add_row(&mut self, row_data: Vec<String>) -> (r: Result<(), &'static str>)
        ensures
            r is Ok <==> row_data@.len() == old(self).num_of_cols,
            r is Ok ==> final(self).items@ == old(self).items@.push(row_data),
            r matches Err(e) ==> e@ == "could not add row"@ && final(self).items == old(self).items,
            final(self).headers == old(self).headers,
            final(self).selected == old(self).selected,
            final(self).num_of_cols == old(self).num_of_cols,
    {
        if row_data.len() != self.num_of_cols {
            return Err("could not add row");
        }
        self.items.push(row_data);
        Ok(())
    }

    /// Removes the row with the given index, where there is one.
    pub fn remove_row(&mut self, index: usize) -> (r: Result<(), &'static str>)
        ensures
            r is Ok <==> index < old(self).items@.len(),
            r is Ok ==> final(self).items@ == old(self).items@.remove(index as int),
            r matches Err(e) ==> e@ == "index too big"@ && final(self).items == old(self).items,
            final(self).headers == old(self).headers,
            final(self).selected == old(self).selected,
            final(self).num_of_cols == old(self).num_of_cols,
    {
        if index >= self.items.len() {
            return Err("index too big");
        }
        let _ = self.items.remove(index);
        Ok(())
    }

    /// Selects the next row, the first behind the last.
    pub fn next(&mut self)
        ensures
            final(self).selected == Some(next_index(old(self).selected, old(self).items@.len())),
            final(self).items == old(self).items,
            final(self).headers == old(self).headers,
            final(self).num_of_cols == old(self).num_of_cols,
    {
        self.selected = Some(step_next(self.selected, self.items.len()));
    }

    /// Selects the row before, the last in front of the first.
    pub fn previous(&mut self)
        ensures
            final(self).selected == Some(
                previous_index(old(self).selected, old(self).items@.len()),
            ),
            final(self).items == old(self).items,
            final(self).headers == old(self).headers,
            final(self).num_of_cols == old(self).num_of_cols,
    {
        self.selected = Some(step_previous(self.selected, self.items.len()));
    }
}

} // verus!
