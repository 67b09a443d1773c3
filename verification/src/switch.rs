use vstd::prelude::*;
use crate::dsp::{OsFactor, Shaper};

verus! {

/// A value that a multi-position switch of the editor can select.
pub trait Choice: Copy {
    /// Whether `self` and `other` are the same choice.
    fn same(&self, other: &Self) -> (r: bool)
        ensures
            r == (*self == *other),
    ;
}

impl Choice for Shaper {
    fn same(&self, other: &Self) -> (r: bool) {
        *self == *other
    }
}

impl Choice for OsFactor {
    fn same(&self, other: &Self) -> (r: bool) {
        *self == *other
    }
}

/// The first position at or after `from` whose choice is `current`, or the
/// top position (0) when no such position exists.
pub open spec fn find_position<T>(options: Seq<(T, &str)>, current: T, from: int) -> int
    decreases options.len() - from,
{
    if from < 0 || from >= options.len() {
        0
    } else if options[from].0 == current {
        from
    } else {
        find_position(options, current, from + 1)
    }
}

/// The position a switch shows as active: the first position whose choice is
/// `current`, or the top position when no position holds it.
pub open spec fn active_position_spec<T>(options: Seq<(T, &str)>, current: T) -> int {
    find_position(options, current, 0)
}

/// The position of `current` among the switch `options` (first match), or 0.
pub fn active_position<T: Choice>(options: &[(T, &str)], current: T) -> (idx: usize)
    ensures
        idx == active_position_spec(options@, current),
        (exists|i: int| 0 <= i < options@.len() && options@[i].0 == current) ==> {
            &&& idx < options@.len()
            &&& options@[idx as int].0 == current
            &&& forall|j: int| 0 <= j < idx ==> options@[j].0 != current
        },
        !(exists|i: int| 0 <= i < options@.len() && options@[i].0 == current) ==> idx == 0,
{
    let mut i: usize = 0;
    while i < options.len()
        invariant
            i <= options@.len(),
            forall|j: int| 0 <= j < i ==> options@[j].0 != current,
            find_position(options@, current, 0) == find_position(options@, current, i as int),
        decreases options@.len() - i,
    {
        if options[i].0.same(&current) {
            return i;
        }
        i = i + 1;
    }
    0
}

/// What a click on position `clicked` commits: the choice at that position,
/// unless it is the active one (then nothing).
pub fn click_selection<T: Choice>(options: &[(T, &str)], current: T, clicked: usize) -> (sel:
    Option<T>)
    requires
        clicked < options@.len(),
    ensures
        sel == if clicked == active_position_spec(options@, current) {
            None
        } else {
            Some(options@[clicked as int].0)
        },
{
    let active = active_position(options, current);
    if clicked == active {
        None
    } else {
        Some(options[clicked].0)
    }
}

} // verus!
