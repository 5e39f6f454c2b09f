//! Three counters, one in each storage tier.

use vstd::prelude::*;

verus! {

/// A counter per tier. A counter that was never written reads as zero.
#[derive(Copy, Clone, Debug, PartialEq, Eq, Structural)]
pub struct TtlContract {
    pub temporary: Option<i32>,
    pub persistent: Option<i32>,
    pub instance: Option<i32>,
}

/// What a counter slot reads as.
pub open spec fn reading(slot: Option<i32>) -> i32 {
    match slot {
        Some(n) => n,
        None => 0,
    }
}

impl TtlContract {
    /// Three counters that were never written.
    pub fn new() -> (t: TtlContract)
        ensures
            t == (TtlContract { temporary: None, persistent: None, instance: None }),
    {
        TtlContract { temporary: None, persistent: None, instance: None }
    }

    /// Adds one to the temporary counter.
    pub fn acc_temporary(&mut self)
        requires
            reading(old(self).temporary) < i32::MAX,
        ensures
            *final(self) == (TtlContract {
                temporary: Some((reading(old(self).temporary) + 1) as i32),
                ..*old(self)
            }),
    {
        let counter: i32 = self.get_temporary();
        self.temporary = Some(counter + 1);
    }

    /// The temporary counter.
    pub fn get_temporary(&self) -> (n: i32)
        ensures
            n == reading(self.temporary),
    {
        match self.temporary {
            Some(n) => n,
            None => 0,
        }
    }

    /// Adds one to the persistent counter.
    pub fn acc_persistent(&mut self)
        requires
            reading(old(self).persistent) < i32::MAX,
        ensures
            *final(self) == (TtlContract {
                persistent: Some((reading(old(self).persistent) + 1) as i32),
                ..*old(self)
            }),
    {
        let counter: i32 = self.get_persistent();
        self.persistent = Some(counter + 1);
    }

    /// The persistent counter.
    pub fn get_persistent(&self) -> (n: i32)
        ensures
            n == reading(self.persistent),
    {
        match self.persistent {
            Some(n) => n,
            None => 0,
        }
    }

    /// Adds one to the instance counter.
    pub fn acc_instance(&mut self)
        requires
            reading(old(self).instance) < i32::MAX,
        ensures
            *final(self) == (TtlContract {
                instance: Some((reading(old(self).instance) + 1) as i32),
                ..*old(self)
            }),
    {
        let counter: i32 = self.get_instance();
        self.instance = Some(counter + 1);
    }

    /// The instance counter.
    pub fn get_instance(&self) -> (n: i32)
        ensures
            n == reading(self.instance),
    {
        match self.instance {
            Some(n) => n,
            None => 0,
        }
    }
}

} // verus!
