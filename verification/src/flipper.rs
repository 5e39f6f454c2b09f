//! A switch that only its owner may flip.

use crate::types::Address;
use vstd::prelude::*;

verus! {

/// Why an operation on the switch was refused.
#[derive(Copy, Clone, Debug, PartialEq, Eq, Structural, PartialOrd, Ord, Hash)]
pub enum Error {
    /// The caller is not the owner.
    Unauthorized,
    /// The switch already has an owner.
    AlreadyInitialized,
}

/// A boolean state with the account that owns it, once it has one.
pub struct Flipper {
    pub owner: Option<Address>,
    pub state: bool,
}

impl Flipper {
    /// A switch without an owner, in the off position.
    pub fn new() -> (f: Flipper)
        ensures
            f.owner is None,
            !f.state,
    {
        Flipper { owner: None, state: false }
    }

    /// Gives the switch its first owner and puts it in the off position.
    /// Fails with `AlreadyInitialized`, and changes nothing, when it has an
    /// owner already.
    pub fn initialize(&mut self, owner: Address) -> (r: Result<(), Error>)
        ensures
            old(self).owner is Some ==> r == Err::<(), Error>(Error::AlreadyInitialized)
                && *final(self) == *old(self),
            old(self).owner is None ==> r == Ok::<(), Error>(()) && *final(self) == (Flipper {
                owner: Some(owner),
                state: false,
            }),
    {
        if self.owner.is_some() {
            return Err(Error::AlreadyInitialized);
        }
        self.owner = Some(owner);
        self.state = false;
        Ok(())
    }

    /// What a request by `address` comes to: it is accepted exactly when
    /// `address` is the owner.
    pub open spec fn owner_check(&self, address: Seq<char>) -> Result<(), Error>
        recommends
            self.owner is Some,
    {
        if self.owner->Some_0@ == address {
            Ok(())
        } else {
            Err(Error::Unauthorized)
        }
    }

    /// Confirms that `address` is the owner; fails with `Unauthorized`
    /// otherwise.
    pub fn is_owner(&self, address: &Address) -> (r: Result<(), Error>)
        requires
            self.owner is Some,
        ensures
            r == self.owner_check(address@),
    {
        match &self.owner {
            Some(owner) => {
                if owner.same(address) {
                    Ok(())
                } else {
                    Err(Error::Unauthorized)
                }
            },
            None => Err(Error::Unauthorized),
        }
    }

    /// The owner.
    pub fn get_owner(&self) -> (a: Address)
        requires
            self.owner is Some,
        ensures
            a == self.owner->Some_0,
    {
        match &self.owner {
            Some(owner) => owner.clone(),
            None => Address::new(""),
        }
    }

    /// Hands the switch over to `new_owner` at the request of `owner`, who
    /// must be the present owner. A refused request changes nothing.
    pub fn set_owner(&mut self, owner: &Address, new_owner: Address) -> (r: Result<(), Error>)
        requires
            old(self).owner is Some,
        ensures
            r == old(self).owner_check(owner@),
            r is Ok ==> *final(self) == (Flipper { owner: Some(new_owner), state: old(self).state }),
            r is Err ==> *final(self) == *old(self),
    {
        match self.is_owner(owner) {
            Ok(()) => {
                self.owner = Some(new_owner);
                Ok(())
            },
            Err(e) => Err(e),
        }
    }

    /// The state of the switch.
    pub fn get(&self) -> (b: bool)
        ensures
            b == self.state,
    {
        self.state
    }

    /// Flips the switch at the request of `owner`, who must be the owner.
    /// A refused request changes nothing.
    pub fn flip(&mut self, owner: &Address) -> (r: Result<(), Error>)
        requires
            old(self).owner is Some,
        ensures
            r == old(self).owner_check(owner@),
            r is Ok ==> *final(self) == (Flipper { owner: old(self).owner, state: !old(self).state }),
            r is Err ==> *final(self) == *old(self),
    {
        match self.is_owner(owner) {
            Ok(()) => {
                self.state = !self.state;
                Ok(())
            },
            Err(e) => Err(e),
        }
    }
}

} // verus!
