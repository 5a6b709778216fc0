//! A list of strings with an optional selected index.

use vstd::prelude::*;

verus! {

/// The index that moving forward from `sel` lands on in a list of `len`
/// items: the first item when nothing is selected, wrapping past the end.
pub open spec fn next_index(sel: Option<usize>, len: nat) -> nat {
    match sel {
        Some(i) => if i + 1 >= len { 0 } else { (i + 1) as nat },
        None => 0,
    }
}

/// The index that moving backward from `sel` lands on in a list of `len`
/// items: the first item when nothing is selected, wrapping before the start.
pub open spec fn previous_index(sel: Option<usize>, len: nat) -> nat {
    match sel {
        Some(i) => if i == 0 { (len - 1) as nat } else { (i - 1) as nat },
        None => 0,
    }
}

/// The index that a step by `delta` (+1 or -1) from `sel` lands on, taken
/// modulo `len`; the first item when nothing is selected.
pub open spec fn wrapped_index(sel: Option<usize>, len: nat, forward: bool) -> nat
    recommends
        len > 0,
{
    match sel {
        Some(i) => if forward {
            ((i + 1) % (len as int)) as nat
        } else {
            ((i - 1) % (len as int)) as nat
        },
        None => 0,
    }
}

/// The selection after a list shrinks or grows to `len` items: kept when it
/// is still in range, else moved to the last item, or cleared on an empty list.
pub open spec fn clamped(sel: Option<usize>, len: nat) -> Option<usize> {
    match sel {
        Some(i) => if i < len {
            Some(i)
        } else if len == 0 {
            None
        } else {
            Some((len - 1) as usize)
        },
        None => None,
    }
}

/// A selection at or past the end of a list that now has `new_len` items
/// moves to the last item, or is cleared when the list is empty.
pub proof fn lemma_clamp_past_end(i: usize, new_len: nat)
    requires
        i >= new_len,
    ensures
        clamped(Some(i), new_len) == if new_len == 0 {
            None
        } else {
            Some((new_len - 1) as usize)
        },
{
}

/// Keeps a selection within a list of `len` items.
pub fn clamp_selection(sel: Option<usize>, len: usize) -> (r: Option<usize>)
    ensures
        r == clamped(sel, len as nat),
{
    match sel {
        Some(i) => if i < len {
            Some(i)
        } else if len == 0 {
            None
        } else {
            Some(len - 1)
        },
        None => None,
    }
}

/// A list of items with an optional selection.
pub struct StatefulList {
    pub items: Vec<String>,
    pub selected: Option<usize>,
}

impl StatefulList {
    /// A list of the given items with nothing selected.
    pub fn with_items(items: Vec<String>) -> (r: StatefulList)
        ensures
            r.items@ == items@,
            r.selected is None,
    {
        StatefulList { items, selected: None }
    }

    /// The selected item, if the selection is within the list.
    pub open spec fn selected_item(&self) -> Option<Seq<char>> {
        match self.selected {
            Some(i) => if i < self.items@.len() {
                Some(self.items@[i as int]@)
            } else {
                None
            },
            None => None,
        }
    }

    /// Returns a copy of the selected item, if the selection is within the list.
    pub fn selected_value(&self) -> (r: Option<String>)
        ensures
            match r {
                Some(s) => self.selected_item() == Some(s@),
                None => self.selected_item() is None,
            },
    {
        match self.selected {
            Some(i) => if i < self.items.len() {
                Some(self.items[i].clone())
            } else {
                None
            },
            None => None,
        }
    }

    /// Selects the next item, wrapping to the first after the last.
    pub fn next(&mut self)
        requires
            old(self).items@.len() > 0,
        ensures
            final(self).items@ == old(self).items@,
            final(self).selected == Some(
                next_index(old(self).selected, old(self).items@.len()) as usize,
            ),
    {
        let len = self.items.len();
        let i = match self.selected {
            Some(i) => if i >= len - 1 {
                0
            } else {
                i + 1
            },
            None => 0,
        };
        self.selected = Some(i);
    }

    /// Selects the previous item, wrapping to the last before the first.
    pub fn previous(&mut self)
        requires
            old(self).items@.len() > 0,
        ensures
            final(self).items@ == old(self).items@,
            final(self).selected == Some(
                previous_index(old(self).selected, old(self).items@.len()) as usize,
            ),
    {
        let len = self.items.len();
        let i = match self.selected {
            Some(i) => if i == 0 {
                len - 1
            } else {
                i - 1
            },
            None => 0,
        };
        self.selected = Some(i);
    }

    /// Moves the selection one step modulo the list's length; does nothing on
    /// an empty list.
    pub fn step_wrapping(&mut self, forward: bool)
        ensures
            final(self).items@ == old(self).items@,
            old(self).items@.len() == 0 ==> final(self).selected == old(self).selected,
            old(self).items@.len() > 0 ==> final(self).selected == Some(
                wrapped_index(old(self).selected, old(self).items@.len(), forward) as usize,
            ),
    {
        let len = self.items.len();
        if len == 0 {
            return;
        }
        let i = match self.selected {
            Some(i) => if forward {
                if i % len == len - 1 {
                    0
                } else {
                    i % len + 1
                }
            } else {
                if i % len == 0 {
                    len - 1
                } else {
                    i % len - 1
                }
            },
            None => 0,
        };
        proof {
            if let Some(s) = self.selected {
                let l = len as int;
                let si = s as int;
                if forward {
                    assert((si + 1) % l == if si % l == l - 1 { 0 } else { si % l + 1 }) by (nonlinear_arith)
                        requires l > 0, si >= 0;
                } else {
                    assert((si - 1) % l == if si % l == 0 { l - 1 } else { si % l - 1 }) by (nonlinear_arith)
                        requires l > 0, si >= 0;
                }
            }
        }
        self.selected = Some(i);
    }
}

} // verus!
