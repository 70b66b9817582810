use notes_store::json::decimal_string;
use notes_store::note::Note;
use notes_store::store::NoteStore;

fn note(id: u32, text: &str) -> Note {
    Note::new(id, String::from(text))
}

fn same(a: &Note, b: &Note) -> bool {
    a.id == b.id && a.text == b.text
}

fn two() -> NoteStore {
    NoteStore::new(vec![note(1, "A"), note(2, "B")])
}

#[test]
fn list_twice_gives_the_same_notes() {
    let store = two();
    let first = store.list();
    let second = store.list();
    assert_eq!(first.len(), second.len());
    for (a, b) in first.iter().zip(second.iter()) {
        assert!(same(a, b));
    }
    assert_eq!(first[0].id, 1);
    assert_eq!(first[1].id, 2);
}

#[test]
fn get_after_create_finds_the_note() {
    let mut store = two();
    let created = store.create(note(9, "new"));
    assert!(same(&created, &note(9, "new")));
    let got = store.get(9).unwrap();
    assert!(same(&got, &note(9, "new")));
    assert_eq!(store.list().last().unwrap().id, 9);
}

#[test]
fn update_replaces_in_place() {
    let mut store = two();
    let r = store.update(1, note(1, "x")).unwrap();
    assert!(same(&r, &note(1, "x")));
    let all = store.list();
    assert_eq!(all.len(), 2);
    assert!(same(&all[0], &note(1, "x")));
    assert!(same(&all[1], &note(2, "B")));
}

#[test]
fn update_may_change_the_id() {
    let mut store = two();
    store.update(1, note(5, "renamed")).unwrap();
    let all = store.list();
    assert!(same(&all[0], &note(5, "renamed")));
    assert_eq!(store.get(1).unwrap_err().id, 1);
    assert!(same(&store.get(5).unwrap(), &note(5, "renamed")));
}

#[test]
fn delete_removes_exactly_one() {
    let mut store = two();
    let removed = store.delete(1).unwrap();
    assert!(same(&removed, &note(1, "A")));
    let all = store.list();
    assert_eq!(all.len(), 1);
    assert!(same(&all[0], &note(2, "B")));
    let e = store.get(1).unwrap_err();
    assert_eq!(e.id, 1);
}

#[test]
fn not_found_on_empty_store() {
    let mut store = NoteStore::new(vec![]);
    let e = store.get(1).unwrap_err();
    assert_eq!(e.id, 1);
    assert_eq!(e.err, "Note not found");
    let e = store.update(1, note(1, "x")).unwrap_err();
    assert_eq!(e.id, 1);
    assert_eq!(e.err, "note not found");
    let e = store.delete(1).unwrap_err();
    assert_eq!(e.id, 1);
    assert_eq!(store.len(), 0);
}

#[test]
fn creates_with_distinct_ids_all_take_effect() {
    let mut store = two();
    let n: u32 = 50;
    for k in 0..n {
        store.create(note(100 + k, "c"));
    }
    assert_eq!(store.len(), 2 + n as usize);
    for k in 0..n {
        assert_eq!(store.get(100 + k).unwrap().id, 100 + k);
    }
}

#[test]
fn duplicates_act_on_the_first() {
    let mut store = NoteStore::new(vec![note(3, "first"), note(3, "second")]);
    assert_eq!(store.get(3).unwrap().text, "first");
    let removed = store.delete(3).unwrap();
    assert_eq!(removed.text, "first");
    assert_eq!(store.get(3).unwrap().text, "second");
}

#[test]
fn position_finds_the_first_match() {
    let store = NoteStore::new(vec![note(4, "a"), note(8, "b"), note(8, "c")]);
    assert_eq!(store.position(8), Some(1));
    assert_eq!(store.position(4), Some(0));
    assert_eq!(store.position(6), None);
}

#[test]
fn decimal_digits() {
    assert_eq!(decimal_string(0), "0");
    assert_eq!(decimal_string(7), "7");
    assert_eq!(decimal_string(10), "10");
    assert_eq!(decimal_string(305), "305");
    assert_eq!(decimal_string(u32::MAX), "4294967295");
}

#[test]
fn duplicate_copies_both_fields() {
    let a = note(12, "text");
    assert!(same(&a.duplicate(), &a));
}
