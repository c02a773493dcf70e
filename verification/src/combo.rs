//! Combo-box adapter: the selection rule of the labelled combo widget.
//!
//! The widget borrows its label list for the duration of one call and owns
//! no state: the current index lives with the caller. What the user did
//! this frame arrives as an optional picked index.

use vstd::prelude::*;

verus! {

/// Applies one frame's interaction to a combo box over `labels`: when the
/// user picked a different, in-range index this frame, the current index
/// moves there and the call reports a change; otherwise — no interaction,
/// the same index, or an out-of-range pick — the index is untouched and no
/// change is reported.
pub fn combobox(pos: &mut i32, picked: Option<i32>, labels: &Vec<String>) -> (changed: bool)
    requires
        labels@.len() <= i32::MAX,
    ensures
        match picked {
            Some(j) => {
                if 0 <= j < labels@.len() && j != *old(pos) {
                    changed && *final(pos) == j
                } else {
                    !changed && *final(pos) == *old(pos)
                }
            },
            None => !changed && *final(pos) == *old(pos),
        },
{
    match picked {
        Some(j) => {
            if 0 <= j && (j as usize) < labels.len() && j != *pos {
                *pos = j;
                true
            } else {
                false
            }
        },
        None => false,
    }
}

} // verus!
