//! Change detection: a value together with a flag that records whether the
//! value was written since the flag was last cleared.

use vstd::prelude::*;

verus! {

/// A value under change detection.
///
/// The flag follows writes, not differences: storing a value equal to the one
/// already held still marks the cell as changed. A cell starts out marked,
/// because a value that has just been added is new to every reader.
#[derive(Clone, Copy, Debug, PartialEq, Eq)]
pub struct Watched<T> {
    /// The value held.
    pub value: T,
    /// Whether the value was written since the flag was last cleared.
    pub changed: bool,
}

impl<T: View> View for Watched<T> {
    type V = Watched<T::V>;

    open spec fn view(&self) -> Watched<T::V> {
        Watched { value: self.value@, changed: self.changed }
    }
}

impl<T> Watched<T> {
    /// Wraps a freshly added value; it counts as changed.
    pub fn new(value: T) -> (cell: Self)
        ensures
            cell == (Watched { value, changed: true }),
    {
        Watched { value, changed: true }
    }

    /// Reads the value without touching the flag.
    pub fn get(&self) -> (value: &T)
        ensures
            *value == self.value,
    {
        &self.value
    }

    /// Stores `value` and marks the cell as changed.
    pub fn set(&mut self, value: T)
        ensures
            *final(self) == (Watched { value, changed: true }),
    {
        self.value = value;
        self.changed = true;
    }

    /// Whether the value was written since the flag was last cleared.
    pub fn is_changed(&self) -> (changed: bool)
        ensures
            changed == self.changed,
    {
        self.changed
    }

    /// Clears the flag and keeps the value.
    pub fn settle(&mut self)
        ensures
            final(self).value == old(self).value,
            !final(self).changed,
    {
        self.changed = false;
    }
}

} // verus!
