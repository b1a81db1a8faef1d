//! The selection cursor of a panel's entry table: either no row is
//! selected, or one row is, by index. The presentation layer reads it to
//! highlight the selected row; the panel state machine owns and moves it.

use vstd::prelude::*;

verus! {

/// An optional row selection into a panel's entry list.
#[derive(Copy, Clone, Debug, PartialEq, Eq)]
pub struct TableState {
    /// The selected row, if any.
    pub selected: Option<usize>,
}

impl TableState {
    /// A state with no row selected.
    pub fn new() -> (r: TableState)
        ensures
            r.selected is None,
    {
        TableState { selected: None }
    }

    /// The selected row, if any.
    pub fn selected(&self) -> (r: Option<usize>)
        ensures
            r == self.selected,
    {
        self.selected
    }

    /// Replaces the selection.
    pub fn select(&mut self, index: Option<usize>)
        ensures
            final(self).selected == index,
    {
        self.selected = index;
    }
}

impl Default for TableState {
    /// A state with no row selected.
    fn default() -> (r: TableState)
        ensures
            r.selected is None,
    {
        TableState::new()
    }
}

} // verus!
