use vstd::prelude::*;

use crate::note::{ErrNoId, Note};

verus! {

/// Whether some note of `s` carries `id`.
pub open spec fn has_id(s: Seq<Note>, id: u32) -> bool {
    exists|i: int| 0 <= i < s.len() && #[trigger] s[i].id == id
}

/// Whether `i` is the position of the first note of `s` that carries `id`.
pub open spec fn is_first_with_id(s: Seq<Note>, id: u32, i: int) -> bool {
    &&& 0 <= i < s.len()
    &&& s[i].id == id
    &&& forall|j: int| 0 <= j < i ==> #[trigger] s[j].id != id
}

/// The position of the first note of `s` that carries `id` (meaningful when `has_id(s, id)`).
pub open spec fn first_with_id(s: Seq<Note>, id: u32) -> int {
    choose|i: int| is_first_with_id(s, id, i)
}

/// At most one position is the first with a given identifier.
pub proof fn lemma_first_unique(s: Seq<Note>, id: u32, i: int, k: int)
    requires
        is_first_with_id(s, id, i),
        is_first_with_id(s, id, k),
    ensures
        i == k,
{
    if i < k {
        assert(s[i].id != id);
    } else if k < i {
        assert(s[k].id != id);
    }
}

/// Scanning from `i`, past notes that do not carry `id`, reaches the first that does.
proof fn lemma_first_from(s: Seq<Note>, id: u32, i: int, k: int)
    requires
        0 <= i <= k < s.len(),
        s[k].id == id,
        forall|j: int| 0 <= j < i ==> #[trigger] s[j].id != id,
    ensures
        exists|f: int| is_first_with_id(s, id, f),
    decreases k - i,
{
    if s[i].id == id {
        assert(is_first_with_id(s, id, i));
    } else {
        lemma_first_from(s, id, i + 1, k);
    }
}

/// When some note carries `id`, `first_with_id` is the position of the first of them.
pub proof fn lemma_first_with_id(s: Seq<Note>, id: u32)
    requires
        has_id(s, id),
    ensures
        is_first_with_id(s, id, first_with_id(s, id)),
{
    let k = choose|k: int| 0 <= k < s.len() && #[trigger] s[k].id == id;
    lemma_first_from(s, id, 0, k);
}

/// The message that a failed lookup carries.
pub open spec fn lookup_message() -> Seq<char> {
    "Note not found"@
}

/// The message that a failed update or removal carries.
pub open spec fn change_message() -> Seq<char> {
    "note not found"@
}

/// The notes, in the order in which they were added.
///
/// Exclusive access to a store (`&mut`) makes each write atomic with
/// respect to every other operation; a program that shares one store
/// between threads keeps it behind a single lock.
pub struct NoteStore {
    notes: Vec<Note>,
}

impl View for NoteStore {
    type V = Seq<Note>;

    closed spec fn view(&self) -> Seq<Note> {
        self.notes@
    }
}

impl NoteStore {
    /// A store holding `seed`, in that order.
    pub fn new(seed: Vec<Note>) -> (r: NoteStore)
        ensures
            r@ == seed@,
    {
        NoteStore { notes: seed }
    }

    /// The number of notes held.
    pub fn len(&self) -> (r: usize)
        ensures
            r == self@.len(),
    {
        self.notes.len()
    }

    /// The position of the first note that carries `id`, if any.
    pub fn position(&self, id: u32) -> (r: Option<usize>)
        ensures
            match r {
                Some(i) => is_first_with_id(self@, id, i as int),
                None => !has_id(self@, id),
            },
    {
        let mut i: usize = 0;
        while i < self.notes.len()
            invariant
                0 <= i <= self@.len(),
                forall|j: int| 0 <= j < i ==> #[trigger] self@[j].id != id,
            decreases self@.len() - i,
        {
            if self.notes[i].id == id {
                return Some(i);
            }
            i = i + 1;
        }
        None
    }

    /// Every note, in insertion order.
    pub fn list(&self) -> (r: Vec<Note>)
        ensures
            r@ == self@,
    {
        let mut out: Vec<Note> = Vec::new();
        let mut i: usize = 0;
        while i < self.notes.len()
            invariant
                0 <= i <= self@.len(),
                out@ == self@.subrange(0, i as int),
            decreases self@.len() - i,
        {
            out.push(self.notes[i].duplicate());
            i = i + 1;
            assert(out@ =~= self@.subrange(0, i as int));
        }
        assert(out@ =~= self@);
        out
    }

    /// The first note that carries `id`.
    pub fn get(&self, id: u32) -> (r: Result<Note, ErrNoId>)
        ensures
            match r {
                Ok(n) => has_id(self@, id) && n == self@[first_with_id(self@, id)],
                Err(e) => !has_id(self@, id) && e.id == id && e.err@ == lookup_message(),
            },
    {
        match self.position(id) {
            Some(i) => {
                proof {
                    lemma_first_with_id(self@, id);
                    lemma_first_unique(self@, id, i as int, first_with_id(self@, id));
                }
                Ok(self.notes[i].duplicate())
            },
            None => Err(ErrNoId { id, err: String::from_str("Note not found") }),
        }
    }

    /// Adds `note` after every note held, whether or not its identifier is
    /// already in use, and returns a copy of it.
    pub fn create(&mut self, note: Note) -> (r: Note)
        ensures
            final(self)@ == old(self)@.push(note),
            r == note,
    {
        let r = note.duplicate();
        self.notes.push(note);
        r
    }

    /// Puts `note` in the place of the first note that carries `id`; the
    /// identifier of `note` need not be `id`.
    pub fn update(&mut self, id: u32, note: Note) -> (r: Result<Note, ErrNoId>)
        ensures
            match r {
                Ok(n) => {
                    &&& has_id(old(self)@, id)
                    &&& n == note
                    &&& final(self)@ == old(self)@.update(first_with_id(old(self)@, id), note)
                },
                Err(e) => {
                    &&& !has_id(old(self)@, id)
                    &&& e.id == id
                    &&& e.err@ == change_message()
                    &&& final(self)@ == old(self)@
                },
            },
    {
        match self.position(id) {
            Some(i) => {
                proof {
                    lemma_first_with_id(self@, id);
                    lemma_first_unique(self@, id, i as int, first_with_id(self@, id));
                }
                let r = note.duplicate();
                self.notes[i] = note;
                Ok(r)
            },
            None => Err(ErrNoId { id, err: String::from_str("note not found") }),
        }
    }

    /// Removes the first note that carries `id` and returns it; the notes
    /// after it keep their order.
    pub fn delete(&mut self, id: u32) -> (r: Result<Note, ErrNoId>)
        ensures
            match r {
                Ok(n) => {
                    &&& has_id(old(self)@, id)
                    &&& n == old(self)@[first_with_id(old(self)@, id)]
                    &&& final(self)@ == old(self)@.remove(first_with_id(old(self)@, id))
                },
                Err(e) => {
                    &&& !has_id(old(self)@, id)
                    &&& e.id == id
                    &&& e.err@ == change_message()
                    &&& final(self)@ == old(self)@
                },
            },
    {
        match self.position(id) {
            Some(i) => {
                proof {
                    lemma_first_with_id(self@, id);
                    lemma_first_unique(self@, id, i as int, first_with_id(self@, id));
                }
                Ok(self.notes.remove(i))
            },
            None => Err(ErrNoId { id, err: String::from_str("note not found") }),
        }
    }
}

} // verus!
