use vstd::prelude::*;

use crate::note::Note;
use crate::store::{first_with_id, has_id, is_first_with_id, lemma_first_unique, lemma_first_with_id, NoteStore};

verus! {

/// What the store holds after `creates` have been applied one after another
/// to a store holding `s`.
pub open spec fn apply_creates(s: Seq<Note>, creates: Seq<Note>) -> Seq<Note>
    decreases creates.len(),
{
    if creates.len() == 0 {
        s
    } else {
        apply_creates(s.push(creates[0]), creates.drop_first())
    }
}

/// Listing a store twice, with no write between, gives the same notes in the
/// same order: each listing is exactly what the store holds.
pub proof fn law_list_idempotent(store: &NoteStore, first: Seq<Note>, second: Seq<Note>)
    requires
        first == store@,
        second == store@,
    ensures
        first == second,
{
}

/// After a note with an identifier that no held note carries is created, a
/// lookup of that identifier finds exactly that note.
pub proof fn law_get_after_create(s: Seq<Note>, n: Note)
    requires
        !has_id(s, n.id),
    ensures
        has_id(s.push(n), n.id),
        first_with_id(s.push(n), n.id) == s.len(),
        s.push(n)[first_with_id(s.push(n), n.id)] == n,
{
    let t = s.push(n);
    assert(t[s.len() as int].id == n.id);
    assert(is_first_with_id(t, n.id, s.len() as int)) by {
        assert forall|j: int| 0 <= j < s.len() implies #[trigger] t[j].id != n.id by {
            assert(t[j] == s[j]);
        }
    }
    lemma_first_with_id(t, n.id);
    lemma_first_unique(t, n.id, s.len() as int, first_with_id(t, n.id));
}

/// An update replaces the first note with the identifier at its own
/// position, and leaves the length and every other note as they were.
pub proof fn law_update_in_place(s: Seq<Note>, id: u32, note: Note)
    requires
        has_id(s, id),
    ensures
        ({
            let p = first_with_id(s, id);
            let t = s.update(p, note);
            &&& t.len() == s.len()
            &&& t[p] == note
            &&& forall|j: int| 0 <= j < s.len() && j != p ==> #[trigger] t[j] == s[j]
        }),
{
    lemma_first_with_id(s, id);
}

/// A removal takes out one note, the first with the identifier, and keeps
/// the others in order; when no other note carries that identifier, a later
/// lookup of it fails.
pub proof fn law_delete_removes_one(s: Seq<Note>, id: u32)
    requires
        has_id(s, id),
    ensures
        ({
            let p = first_with_id(s, id);
            let t = s.remove(p);
            &&& t.len() == s.len() - 1
            &&& t == s.subrange(0, p) + s.subrange(p + 1, s.len() as int)
            &&& (forall|j: int| 0 <= j < s.len() && j != p ==> #[trigger] s[j].id != id)
                ==> !has_id(t, id)
        }),
{
    lemma_first_with_id(s, id);
    let p = first_with_id(s, id);
    let t = s.remove(p);
    assert(t =~= s.subrange(0, p) + s.subrange(p + 1, s.len() as int));
    if forall|j: int| 0 <= j < s.len() && j != p ==> #[trigger] s[j].id != id {
        assert forall|k: int| 0 <= k < t.len() implies #[trigger] t[k].id != id by {
            if k < p {
                assert(t[k] == s[k]);
            } else {
                assert(t[k] == s[k + 1]);
            }
        }
    }
}

/// An empty store holds no identifier, so a lookup, an update or a removal
/// of any identifier fails.
pub proof fn law_empty_not_found(id: u32)
    ensures
        !has_id(Seq::<Note>::empty(), id),
{
}

/// Creates applied one after another, in whatever order a lock admits them,
/// all take effect: the store ends up holding what it held followed by the
/// created notes in that order, so its length grows by their number.
pub proof fn law_creates_serialize(s: Seq<Note>, creates: Seq<Note>)
    ensures
        apply_creates(s, creates) == s + creates,
        apply_creates(s, creates).len() == s.len() + creates.len(),
    decreases creates.len(),
{
    if creates.len() == 0 {
        assert(s + creates =~= s);
    } else {
        law_creates_serialize(s.push(creates[0]), creates.drop_first());
        assert(s.push(creates[0]) + creates.drop_first() =~= s + creates);
    }
}

/// When the created notes carry distinct identifiers that the store did not
/// hold, each of them can be looked up afterwards.
pub proof fn law_creates_all_found(s: Seq<Note>, creates: Seq<Note>, k: int)
    requires
        0 <= k < creates.len(),
        forall|i: int| 0 <= i < creates.len() ==> !has_id(s, #[trigger] creates[i].id),
        forall|i: int, j: int|
            0 <= i < j < creates.len() ==> #[trigger] creates[i].id != #[trigger] creates[j].id,
    ensures
        has_id(apply_creates(s, creates), creates[k].id),
        apply_creates(s, creates)[first_with_id(apply_creates(s, creates), creates[k].id)]
            == creates[k],
{
    law_creates_serialize(s, creates);
    let t = s + creates;
    let id = creates[k].id;
    let p = s.len() + k;
    assert(t[p] == creates[k]);
    assert forall|j: int| 0 <= j < p implies #[trigger] t[j].id != id by {
        if j < s.len() {
            assert(t[j] == s[j]);
            if s[j].id == id {
                assert(has_id(s, creates[k].id));
            }
        } else {
            assert(t[j] == creates[j - s.len()]);
        }
    }
    assert(is_first_with_id(t, id, p));
    lemma_first_with_id(t, id);
    lemma_first_unique(t, id, p, first_with_id(t, id));
}

} // verus!
