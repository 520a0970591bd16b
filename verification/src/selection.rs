//! The selection of a list: no row, or the index of one row.
//!
//! The functions of this module say, over plain numbers, where the selection
//! goes on each move. A selection is *settled* in a list of `len` rows when it
//! names none or one of them.

use vstd::prelude::*;

verus! {

/// Whether `selected` names no row or a row of a list of `len` rows.
pub open spec fn is_settled(selected: Option<nat>, len: nat) -> bool {
    selected matches Some(i) ==> i < len
}

/// The selection as a list of `len` rows shows it: an empty list has no
/// selection, and an index past the end means the last row.
pub open spec fn settled(selected: Option<nat>, len: nat) -> Option<nat> {
    match selected {
        Some(i) => if len == 0 {
            None
        } else if i >= len {
            Some((len - 1) as nat)
        } else {
            Some(i)
        },
        None => None,
    }
}

/// The first row of a list of `len` rows, if it has one.
pub open spec fn first(len: nat) -> Option<nat> {
    if len == 0 {
        None
    } else {
        Some(0nat)
    }
}

/// The last row of a list of `len` rows, if it has one.
pub open spec fn last(len: nat) -> Option<nat> {
    if len == 0 {
        None
    } else {
        Some((len - 1) as nat)
    }
}

/// One row down, and from the last row round to the first. With nothing
/// selected the move goes to the first row.
pub open spec fn advanced(selected: Option<nat>, len: nat) -> Option<nat> {
    match selected {
        Some(i) => if i + 1 >= len {
            first(len)
        } else {
            Some(i + 1)
        },
        None => first(len),
    }
}

/// One row up, and from the first row round to the last. With nothing
/// selected the move goes to the last row.
pub open spec fn retreated(selected: Option<nat>, len: nat) -> Option<nat> {
    match selected {
        Some(i) => if i == 0 {
            last(len)
        } else {
            Some((i - 1) as nat)
        },
        None => last(len),
    }
}

/// A selection over machine indices as one over natural numbers.
pub open spec fn as_nat(selected: Option<usize>) -> Option<nat> {
    match selected {
        Some(i) => Some(i as nat),
        None => None,
    }
}

/// Pulls a selection back into a list of `len` rows, as drawing the list
/// does.
pub fn settle(selected: Option<usize>, len: usize) -> (shown: Option<usize>)
    ensures
        as_nat(shown) == settled(as_nat(selected), len as nat),
        is_settled(as_nat(shown), len as nat),
{
    match selected {
        Some(i) => if len == 0 {
            None
        } else if i >= len {
            Some(len - 1)
        } else {
            Some(i)
        },
        None => None,
    }
}

} // verus!
