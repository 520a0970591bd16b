//! The moves of `ratatui`'s list state, from selection to selection.
//!
//! The list widget keeps its selection in a `ratatui::widgets::ListState`.
//! The functions here make one such state with the selection they are given,
//! let it do one move, and hand back the selection it then holds. Their
//! contracts are taken on trust from `ratatui`; nothing in this crate proves
//! them.
//!
//! A list state does not know how long its list is. Its moves therefore go
//! past the end, and the widget pulls the selection back when it draws.
//! [`crate::selection::settle`] does the same for the selections made here.

use ratatui::widgets::ListState;
use vstd::prelude::*;

verus! {

/// `ListState::select_first`: whatever was selected, the state then selects
/// index 0.
#[verifier::external_body]
pub(crate) fn select_first(selected: Option<usize>) -> (moved: Option<usize>)
    ensures
        moved == Some(0usize),
{
    let mut state = ListState::default().with_selected(selected);
    state.select_first();
    state.selected()
}

/// `ListState::select_last`: whatever was selected, the state then selects
/// `usize::MAX`, which stands for "the last row" until the length is known.
#[verifier::external_body]
pub(crate) fn select_last(selected: Option<usize>) -> (moved: Option<usize>)
    ensures
        moved == Some(usize::MAX),
{
    let mut state = ListState::default().with_selected(selected);
    state.select_last();
    state.selected()
}

/// `ListState::select_next`: the state then selects the index after the
/// selected one, stopping at `usize::MAX`; with nothing selected it selects
/// index 0.
#[verifier::external_body]
pub(crate) fn select_next(selected: Option<usize>) -> (moved: Option<usize>)
    ensures
        moved == match selected {
            Some(i) => Some(if i < usize::MAX { (i + 1) as usize } else { usize::MAX }),
            None => Some(0usize),
        },
{
    let mut state = ListState::default().with_selected(selected);
    state.select_next();
    state.selected()
}

/// `ListState::select`: the state then selects exactly `index`, whatever was
/// selected before.
#[verifier::external_body]
pub(crate) fn select(selected: Option<usize>, index: Option<usize>) -> (moved: Option<usize>)
    ensures
        moved == index,
{
    let mut state = ListState::default().with_selected(selected);
    state.select(index);
    state.selected()
}

} // verus!
