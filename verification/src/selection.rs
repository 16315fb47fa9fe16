//! Movement of the single highlighted place of a list.
//!
//! A list of `len` items has a selection that is `None` when the list is empty
//! and a valid place otherwise. Moving up or down steps by one and stops at the
//! ends. A move on a list that has items but no selection selects the first.

use vstd::prelude::*;

verus! {

/// `selected` is a selection that a list of `len` items can have: none on an
/// empty list, a place within the list otherwise.
pub open spec fn selectable(len: nat, selected: Option<usize>) -> bool {
    match selected {
        None => len == 0,
        Some(i) => i < len,
    }
}

/// The selection of a list that was just made: its first item, if it has one.
pub open spec fn initial_selection(len: nat) -> Option<usize> {
    if len == 0 {
        None
    } else {
        Some(0usize)
    }
}

/// The selection after a move towards the start of the list.
pub open spec fn moved_up(len: nat, selected: Option<usize>) -> Option<usize> {
    if len == 0 {
        None
    } else {
        match selected {
            None => Some(0usize),
            Some(i) => if i > 0 {
                Some((i - 1) as usize)
            } else {
                Some(i)
            },
        }
    }
}

/// The selection after a move towards the end of the list.
pub open spec fn moved_down(len: nat, selected: Option<usize>) -> Option<usize> {
    if len == 0 {
        None
    } else {
        match selected {
            None => Some(0usize),
            Some(i) => if i < len - 1 {
                Some((i + 1) as usize)
            } else {
                Some(i)
            },
        }
    }
}

/// Moves the selection of a list of `len` items one place towards the start.
/// It never unwinds, so a list that is part of a larger view can move while
/// the view is borrowed.
pub fn step_up(len: usize, selected: Option<usize>) -> (moved: Option<usize>)
    ensures
        moved == moved_up(len as nat, selected),
    no_unwind
{
    if len == 0 {
        return None;
    }
    if let Some(index) = selected {
        if index > 0 {
            Some(index - 1)
        } else {
            Some(index)
        }
    } else {
        Some(0)
    }
}

/// Moves the selection of a list of `len` items one place towards the end.
/// It never unwinds, as [`step_up`].
pub fn step_down(len: usize, selected: Option<usize>) -> (moved: Option<usize>)
    ensures
        moved == moved_down(len as nat, selected),
    no_unwind
{
    if len == 0 {
        return None;
    }
    let max_index = len - 1;
    if let Some(index) = selected {
        if index < max_index {
            Some(index + 1)
        } else {
            Some(index)
        }
    } else {
        Some(0)
    }
}

/// Moves the selection of `values` one place towards the start.
pub fn up<T>(values: &[T], selected: Option<usize>) -> (moved: Option<usize>)
    ensures
        moved == moved_up(values@.len(), selected),
{
    step_up(values.len(), selected)
}

/// Moves the selection of `values` one place towards the end.
pub fn down<T>(values: &[T], selected: Option<usize>) -> (moved: Option<usize>)
    ensures
        moved == moved_down(values@.len(), selected),
{
    step_down(values.len(), selected)
}

/// Whatever the selection was, after a move it is one the list can have.
pub proof fn lemma_moves_keep_selectable(len: nat, selected: Option<usize>)
    requires
        len <= usize::MAX,
    ensures
        selectable(len, initial_selection(len)),
        selectable(len, selected) ==> selectable(len, moved_up(len, selected)),
        selectable(len, selected) ==> selectable(len, moved_down(len, selected)),
        selectable(len, moved_up(len, None)),
        selectable(len, moved_down(len, None)),
{
}

/// From any place but the first, a move up followed by a move down comes back
/// to the same place.
pub proof fn lemma_up_then_down_returns(len: nat, i: usize)
    requires
        0 < i < len,
    ensures
        moved_down(len, moved_up(len, Some(i))) == Some(i),
{
}

/// From any place but the last, a move down followed by a move up comes back
/// to the same place.
pub proof fn lemma_down_then_up_returns(len: nat, i: usize)
    requires
        i + 1 < len,
        len <= usize::MAX,
    ensures
        moved_up(len, moved_down(len, Some(i))) == Some(i),
{
}

/// The ends hold: a move up from the first place stays there, a move down
/// from the last place stays there, however often it is repeated.
pub proof fn lemma_moves_stop_at_the_ends(len: nat)
    requires
        0 < len <= usize::MAX,
    ensures
        moved_up(len, Some(0usize)) == Some(0usize),
        moved_up(len, moved_up(len, Some(0usize))) == moved_up(len, Some(0usize)),
        moved_down(len, Some((len - 1) as usize)) == Some((len - 1) as usize),
        moved_down(len, moved_down(len, Some((len - 1) as usize))) == moved_down(
            len,
            Some((len - 1) as usize),
        ),
{
}

} // verus!
