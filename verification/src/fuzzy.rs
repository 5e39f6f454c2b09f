//! A single stored number.

use vstd::prelude::*;

verus! {

/// One slot that holds a number once it was set, and reads as zero before.
#[derive(Copy, Clone, Debug, PartialEq, Eq, Structural)]
pub struct FuzzyContract {
    pub stored: Option<i32>,
}

impl FuzzyContract {
    /// A slot that was never set.
    pub fn new() -> (f: FuzzyContract)
        ensures
            f.stored is None,
    {
        FuzzyContract { stored: None }
    }

    /// What the slot reads as.
    pub open spec fn value(&self) -> i32 {
        match self.stored {
            Some(n) => n,
            None => 0,
        }
    }

    /// Stores `value`, in place of whatever was stored.
    pub fn set(&mut self, value: i32)
        ensures
            final(self).stored == Some(value),
    {
        self.stored = Some(value);
    }

    /// The stored number, or zero when none was stored.
    pub fn get(&self) -> (n: i32)
        ensures
            n == self.value(),
    {
        match self.stored {
            Some(n) => n,
            None => 0,
        }
    }
}

} // verus!
