use vstd::prelude::*;

verus! {

/// A note: a caller-chosen identifier and free-form text.
#[derive(Debug)]
pub struct Note {
    pub id: u32,
    pub text: String,
}

/// The one error of the store: no note carries the requested identifier.
#[derive(Debug)]
pub struct ErrNoId {
    pub id: u32,
    pub err: String,
}

impl Note {
    /// A note with the given identifier and text.
    pub fn new(id: u32, text: String) -> (r: Note)
        ensures
            r.id == id,
            r.text == text,
    {
        Note { id, text }
    }

    /// A copy that equals `self` field by field.
    pub fn duplicate(&self) -> (r: Note)
        ensures
            r == *self,
    {
        Note { id: self.id, text: self.text.clone() }
    }
}

} // verus!
