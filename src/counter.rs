use vstd::prelude::*;

verus! {

/// A contract state holding a single counter.
pub struct Counter {
    val: u32,
}

impl View for Counter {
    type V = u32;

    closed spec fn view(&self) -> u32 {
        self.val
    }
}

impl Default for Counter {
    /// A fresh counter starts at zero.
    fn default() -> (r: Counter)
        ensures
            r@ == 0,
    {
        Counter { val: 0 }
    }
}

impl Counter {
    /// Adds one to the counter and returns the new value.
    pub fn increment(&mut self) -> (r: u32)
        requires
            old(self)@ < u32::MAX,
        ensures
            final(self)@ == old(self)@ + 1,
            r == final(self)@,
    {
        self.val = self.val + 1;
        self.val
    }
}

} // verus!
