//! A notepad: numbered notes under the care of an administrator.

use crate::types::Address;
use vstd::prelude::*;
use vstd::string::*;

verus! {

/// The version of the notepad.
pub fn version() -> (v: u32)
    ensures
        v == 10,
{
    10
}

/// The part of the notepad that keeps the notes.
pub struct NotepadManager;

impl NotepadManager {
    /// The version of the note keeping.
    pub fn version() -> (v: u32)
        ensures
            v == 1,
    {
        1
    }
}

/// Notes numbered from one in the order in which they were added.
pub struct Notepad {
    pub admin: Address,
    pub notes: Vec<String>,
}

impl Notepad {
    /// The notes can still be numbered.
    pub open spec fn wf(&self) -> bool {
        self.notes@.len() <= u32::MAX
    }

    /// Whether a note has the number `id`.
    pub open spec fn has_note(&self, id: u32) -> bool {
        1 <= id <= self.notes@.len()
    }

    /// An empty notepad administered by `admin`.
    pub fn new(admin: Address) -> (n: Notepad)
        ensures
            n.wf(),
            n.admin == admin,
            n.notes@.len() == 0,
    {
        Notepad { admin, notes: Vec::new() }
    }

    /// Adds a note and returns its number, one more than the last.
    pub fn add_note(&mut self, note: String) -> (id: u32)
        requires
            old(self).wf(),
            old(self).notes@.len() < u32::MAX,
        ensures
            final(self).wf(),
            id == old(self).notes@.len() + 1,
            final(self).notes@ == old(self).notes@.push(note),
            final(self).admin == old(self).admin,
    {
        self.notes.push(note);
        self.notes.len() as u32
    }

    /// The note with the number `id`, or the text `NOTFOUND` when there is
    /// none.
    pub fn get_note(&self, id: u32) -> (note: String)
        requires
            self.wf(),
        ensures
            self.has_note(id) ==> note == self.notes@[id - 1],
            !self.has_note(id) ==> note@ == "NOTFOUND"@,
    {
        if id >= 1 && (id as usize) <= self.notes.len() {
            self.notes[(id - 1) as usize].clone()
        } else {
            String::from_str("NOTFOUND")
        }
    }

    /// All notes, the newest first.
    pub fn get_all_notes(&self) -> (all: Vec<String>)
        ensures
            all@.len() == self.notes@.len(),
            forall|i: int| 0 <= i < all@.len() ==> all@[i] == self.notes@[self.notes@.len() - 1 - i],
    {
        let mut all: Vec<String> = Vec::new();
        let n = self.notes.len();
        let mut taken: usize = 0;
        while taken < n
            invariant
                n == self.notes@.len(),
                taken <= n,
                all@.len() == taken,
                forall|i: int| 0 <= i < taken ==> all@[i] == self.notes@[n - 1 - i],
            decreases n - taken,
        {
            all.push(self.notes[n - 1 - taken].clone());
            taken = taken + 1;
        }
        all
    }

    /// How many notes there are.
    pub fn get_notes_counter(&self) -> (count: u32)
        requires
            self.wf(),
        ensures
            count == self.notes@.len(),
    {
        self.notes.len() as u32
    }

    /// The administrator.
    pub fn get_admin(&self) -> (a: Address)
        ensures
            a == self.admin,
    {
        self.admin.clone()
    }

    /// Makes `new_admin` the administrator.
    pub fn set_admin(&mut self, new_admin: Address)
        ensures
            final(self).admin == new_admin,
            final(self).notes == old(self).notes,
    {
        self.admin = new_admin;
    }

    /// The version of the notepad.
    pub fn version() -> (v: u32)
        ensures
            v == 10,
    {
        version()
    }
}

} // verus!
