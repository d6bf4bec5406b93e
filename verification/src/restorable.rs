use vstd::prelude::*;

verus! {

/// A value with a saved baseline: it can be overridden for a while and later
/// put back to the baseline.
#[derive(Clone, Copy, Debug)]
pub struct Restorable<T: Copy> {
    /// The baseline, fixed at construction.
    pub baseline: T,
    /// The value currently in force.
    pub value: T,
}

impl<T: Copy> Restorable<T> {
    /// Starts with `value` both as baseline and as current value.
    pub fn new(value: T) -> (r: Self)
        ensures
            r.baseline == value,
            r.value == value,
    {
        Restorable { baseline: value, value }
    }

    /// Overrides the current value; the baseline is untouched.
    pub fn set(&mut self, value: T)
        ensures
            final(self).value == value,
            final(self).baseline == old(self).baseline,
    {
        self.value = value;
    }

    /// Puts the current value back to the baseline.
    pub fn restore(&mut self)
        ensures
            final(self).value == old(self).baseline,
            final(self).baseline == old(self).baseline,
    {
        self.value = self.baseline;
    }

    /// True when no override is in force.
    pub open spec fn is_restored(self) -> bool {
        self.value == self.baseline
    }
}

} // verus!
