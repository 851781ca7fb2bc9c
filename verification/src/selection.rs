//! The selection of a list: which item is highlighted and where the visible
//! part of the list starts.
//!
//! The moves themselves are those of the list widget's own state; what this
//! module adds is the rule that keeps the selection inside the list it
//! belongs to.

use vstd::prelude::*;

verus! {

/// The selection of a list widget, as plain values.
#[derive(Clone, Copy, Debug, PartialEq, Eq, Structural)]
pub struct ListState {
    /// Index of the first item that is displayed.
    pub offset: usize,
    /// Index of the highlighted item, if there is one.
    pub selected: Option<usize>,
}

/// The index one further down, which stops at the largest index there is.
pub open spec fn spec_next_index(selected: Option<usize>) -> usize {
    match selected {
        None => 0,
        Some(i) => if i == usize::MAX {
            i
        } else {
            (i + 1) as usize
        },
    }
}

/// The index one further up, which stops at 0. Without a selection the move
/// goes to the largest index there is, to be brought back to the last item.
pub open spec fn spec_previous_index(selected: Option<usize>) -> usize {
    match selected {
        None => usize::MAX,
        Some(i) => if i == 0 {
            i
        } else {
            (i - 1) as usize
        },
    }
}

/// The state after `index` has been selected: dropping the selection also
/// scrolls back to the top.
pub open spec fn spec_select(state: ListState, index: Option<usize>) -> ListState {
    ListState { offset: if index is None { 0 } else { state.offset }, selected: index }
}

/// The state as a list of `len` items accepts it: no selection in an empty
/// list, and a selection behind the end moved to the last item.
pub open spec fn spec_clamp(state: ListState, len: int) -> ListState {
    if len <= 0 {
        spec_select(state, None)
    } else {
        match state.selected {
            Some(i) if i >= len => spec_select(state, Some((len - 1) as usize)),
            _ => state,
        }
    }
}

/// Whether the selection points into a list of `len` items: at an item, or
/// at nothing.
pub open spec fn selection_in_range(state: ListState, len: int) -> bool {
    match state.selected {
        None => true,
        Some(i) => i < len,
    }
}

/// Whatever the selection was, a list of `len` items accepts it only inside
/// the list, and an empty list has no selection.
pub proof fn lemma_clamp_in_range(state: ListState, len: int)
    ensures
        selection_in_range(spec_clamp(state, len), len),
        len <= 0 ==> spec_clamp(state, len).selected is None,
        selection_in_range(state, len) && len > 0 ==> spec_clamp(state, len) == state,
{
}

/// `ratatui::widgets::ListState::select` on a state with the given offset and
/// selection: the selection becomes `index`, and the offset goes back to 0
/// when `index` is `None`.
#[verifier::external_body]
fn widget_select(state: ListState, index: Option<usize>) -> (after: ListState)
    ensures
        after == spec_select(state, index),
{
    let mut widget = ratatui::widgets::ListState::default()
        .with_offset(state.offset)
        .with_selected(state.selected);
    widget.select(index);
    ListState { offset: widget.offset(), selected: widget.selected() }
}

/// `ratatui::widgets::ListState::select_next`: selects the index after the
/// selected one (adding saturates), or index 0 where nothing was selected.
#[verifier::external_body]
fn widget_select_next(state: ListState) -> (after: ListState)
    ensures
        after == spec_select(state, Some(spec_next_index(state.selected))),
{
    let mut widget = ratatui::widgets::ListState::default()
        .with_offset(state.offset)
        .with_selected(state.selected);
    widget.select_next();
    ListState { offset: widget.offset(), selected: widget.selected() }
}

/// `ratatui::widgets::ListState::select_previous`: selects the index before
/// the selected one (subtracting saturates), or the largest index there is
/// where nothing was selected.
#[verifier::external_body]
fn widget_select_previous(state: ListState) -> (after: ListState)
    ensures
        after == spec_select(state, Some(spec_previous_index(state.selected))),
{
    let mut widget = ratatui::widgets::ListState::default()
        .with_offset(state.offset)
        .with_selected(state.selected);
    widget.select_previous();
    ListState { offset: widget.offset(), selected: widget.selected() }
}

impl Default for ListState {
    fn default() -> (state: Self)
        ensures
            state == (ListState { offset: 0, selected: None }),
    {
        ListState { offset: 0, selected: None }
    }
}

impl ListState {
    /// The same state with another selection.
    pub fn with_selected(self, selected: Option<usize>) -> (state: Self)
        ensures
            state == (ListState { offset: self.offset, selected }),
    {
        ListState { offset: self.offset, selected }
    }

    /// The index of the highlighted item.
    pub fn selected(&self) -> (index: Option<usize>)
        ensures
            index == self.selected,
    {
        self.selected
    }

    /// Highlights `index`, or nothing.
    pub fn select(&mut self, index: Option<usize>)
        ensures
            *final(self) == spec_select(*old(self), index),
    {
        *self = widget_select(*self, index);
    }

    /// Moves the highlight one item down.
    pub fn select_next(&mut self)
        ensures
            *final(self) == spec_select(*old(self), Some(spec_next_index(old(self).selected))),
    {
        *self = widget_select_next(*self);
    }

    /// Moves the highlight one item up.
    pub fn select_previous(&mut self)
        ensures
            *final(self) == spec_select(*old(self), Some(spec_previous_index(old(self).selected))),
    {
        *self = widget_select_previous(*self);
    }

    /// Brings the selection back into a list of `len` items.
    pub fn clamp(&mut self, len: usize)
        ensures
            *final(self) == spec_clamp(*old(self), len as int),
    {
        if len == 0 {
            self.select(None);
        } else {
            match self.selected {
                Some(i) => {
                    if i >= len {
                        self.select(Some(len - 1));
                    }
                },
                None => {},
            }
        }
    }
}

} // verus!
