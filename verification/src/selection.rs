//! Which row of the server list is highlighted.

use vstd::prelude::*;

verus! {

/// The highlighted row of a list of `count` rows. The row is always one of
/// the list; where the list has no rows, it is 0.
#[derive(Clone, Copy, Debug, PartialEq, Eq)]
pub struct SelectionState {
    selected_index: usize,
    count: usize,
}

/// A `SelectionState` as plain values.
pub ghost struct Selection {
    pub selected_index: int,
    pub count: int,
}

/// The index is a row of the list, or 0 where the list has no rows.
pub open spec fn valid(s: Selection) -> bool {
    if s.count == 0 {
        s.selected_index == 0
    } else {
        0 <= s.selected_index < s.count
    }
}

/// The selection after a step down the list: the row below, or the first
/// row after the last one. A list without rows has nothing to step to.
pub open spec fn next_of(s: Selection) -> Selection {
    if s.count == 0 {
        s
    } else if s.selected_index + 1 >= s.count {
        Selection { selected_index: 0, count: s.count }
    } else {
        Selection { selected_index: s.selected_index + 1, count: s.count }
    }
}

/// The selection after a step up the list: the row above, or the last row
/// before the first one. A list without rows has nothing to step to.
pub open spec fn previous_of(s: Selection) -> Selection {
    if s.count == 0 {
        s
    } else if s.selected_index == 0 {
        Selection { selected_index: s.count - 1, count: s.count }
    } else {
        Selection { selected_index: s.selected_index - 1, count: s.count }
    }
}

/// The selection after `steps` steps down the list.
pub open spec fn next_times(s: Selection, steps: nat) -> Selection
    decreases steps,
{
    if steps == 0 {
        s
    } else {
        next_of(next_times(s, (steps - 1) as nat))
    }
}

/// The selection after `steps` steps up the list.
pub open spec fn previous_times(s: Selection, steps: nat) -> Selection
    decreases steps,
{
    if steps == 0 {
        s
    } else {
        previous_of(previous_times(s, (steps - 1) as nat))
    }
}

impl View for SelectionState {
    type V = Selection;

    closed spec fn view(&self) -> Selection {
        Selection { selected_index: self.selected_index as int, count: self.count as int }
    }
}

impl SelectionState {
    #[verifier::type_invariant]
    spec fn inv(self) -> bool {
        valid(self@)
    }

    /// A selection on the first row of a list of `count` rows.
    pub fn new(count: usize) -> (s: Self)
        ensures
            s@ == (Selection { selected_index: 0, count: count as int }),
    {
        SelectionState { selected_index: 0, count }
    }

    /// The highlighted row, counted from 0.
    pub fn selected_index(&self) -> (i: usize)
        ensures
            i == self@.selected_index,
            valid(self@),
    {
        proof {
            use_type_invariant(self);
        }
        self.selected_index
    }

    /// How many rows the list has.
    pub fn count(&self) -> (n: usize)
        ensures
            n == self@.count,
            valid(self@),
    {
        proof {
            use_type_invariant(self);
        }
        self.count
    }

    /// Steps down the list, from the last row to the first.
    pub fn next(&mut self)
        ensures
            final(self)@ == next_of(old(self)@),
            valid(final(self)@),
    {
        proof {
            use_type_invariant(&*self);
        }
        if self.count == 0 {
        } else if self.selected_index >= self.count - 1 {
            self.selected_index = 0;
        } else {
            self.selected_index = self.selected_index + 1;
        }
    }

    /// Steps up the list, from the first row to the last.
    pub fn previous(&mut self)
        ensures
            final(self)@ == previous_of(old(self)@),
            valid(final(self)@),
    {
        proof {
            use_type_invariant(&*self);
        }
        if self.count == 0 {
        } else if self.selected_index == 0 {
            self.selected_index = self.count - 1;
        } else {
            self.selected_index = self.selected_index - 1;
        }
    }
}

/// A step in either direction leaves the selection on a row of the list,
/// and the list as long as it was.
pub proof fn lemma_steps_stay_valid(s: Selection)
    requires
        valid(s),
    ensures
        valid(next_of(s)),
        valid(previous_of(s)),
        next_of(s).count == s.count,
        previous_of(s).count == s.count,
{
}

/// A step down and a step up undo each other, in either order.
pub proof fn lemma_next_previous_inverse(s: Selection)
    requires
        valid(s),
    ensures
        previous_of(next_of(s)) == s,
        next_of(previous_of(s)) == s,
{
}

/// Stepping wraps at both ends: down from the last row leads to the first,
/// up from the first row leads to the last.
pub proof fn lemma_steps_wrap(s: Selection)
    requires
        valid(s),
        s.count > 0,
    ensures
        s.selected_index == s.count - 1 ==> next_of(s).selected_index == 0,
        s.selected_index == 0 ==> previous_of(s).selected_index == s.count - 1,
        s.selected_index < s.count - 1 ==> next_of(s).selected_index == s.selected_index + 1,
        s.selected_index > 0 ==> previous_of(s).selected_index == s.selected_index - 1,
{
}

/// Where `steps` steps down from `s` lead, for no more steps than the list
/// has rows.
proof fn lemma_next_times_index(s: Selection, steps: nat)
    requires
        valid(s),
        s.count > 0,
        steps <= s.count,
    ensures
        next_times(s, steps).count == s.count,
        next_times(s, steps).selected_index == (if s.selected_index + steps < s.count {
            s.selected_index + steps
        } else {
            s.selected_index + steps - s.count
        }),
    decreases steps,
{
    if steps > 0 {
        lemma_next_times_index(s, (steps - 1) as nat);
    }
}

/// Where `steps` steps up from `s` lead, for no more steps than the list
/// has rows.
proof fn lemma_previous_times_index(s: Selection, steps: nat)
    requires
        valid(s),
        s.count > 0,
        steps <= s.count,
    ensures
        previous_times(s, steps).count == s.count,
        previous_times(s, steps).selected_index == (if s.selected_index - steps >= 0 {
            s.selected_index - steps
        } else {
            s.selected_index - steps + s.count
        }),
    decreases steps,
{
    if steps > 0 {
        lemma_previous_times_index(s, (steps - 1) as nat);
    }
}

/// As many steps as the list has rows, all down or all up, lead once
/// round the list and back to where they began.
pub proof fn lemma_full_round(s: Selection)
    requires
        valid(s),
    ensures
        next_times(s, s.count as nat) == s,
        previous_times(s, s.count as nat) == s,
{
    if s.count > 0 {
        lemma_next_times_index(s, s.count as nat);
        lemma_previous_times_index(s, s.count as nat);
    }
}

} // verus!
