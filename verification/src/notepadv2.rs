//! The second notepad: what tells it from the first.

use vstd::prelude::*;

verus! {

/// The version of the second notepad.
pub fn version() -> (v: u32)
    ensures
        v == 20,
{
    20
}

/// The part of the second notepad that keeps the notes.
pub struct NotepadManager;

impl NotepadManager {
    /// The version of the note keeping.
    pub fn version() -> (v: u32)
        ensures
            v == 2,
    {
        2
    }
}

} // verus!
