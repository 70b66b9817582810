use vstd::prelude::*;

use crate::json::{err_json, err_json_of, note_json, note_json_of, notes_json, notes_json_of};
use crate::note::{ErrNoId, Note};
use crate::store::{change_message, first_with_id, has_id, lookup_message, NoteStore};

verus! {

/// Status 200.
pub const STATUS_OK: u16 = 200;

/// Status 201.
pub const STATUS_CREATED: u16 = 201;

/// Status 400.
pub const STATUS_BAD_REQUEST: u16 = 400;

/// Status 404.
pub const STATUS_NOT_FOUND: u16 = 404;

/// The request methods that the handlers tell apart.
#[derive(Debug, Clone, Copy, PartialEq, Eq, Structural)]
pub enum HttpMethod {
    Get,
    Post,
    Put,
    Delete,
    Other,
}

/// A response: its status, whether its body is JSON, and the body.
#[derive(Debug)]
pub struct Reply {
    pub status: u16,
    pub json: bool,
    pub body: String,
}

/// The liveness probe: 200 to a GET, 400 to any other method, with an empty
/// body either way.
pub fn health_check(method: HttpMethod) -> (r: Reply)
    ensures
        r.status == (if method == HttpMethod::Get { STATUS_OK } else { STATUS_BAD_REQUEST }),
        !r.json,
        r.body@.len() == 0,
{
    let status = match method {
        HttpMethod::Get => STATUS_OK,
        _ => STATUS_BAD_REQUEST,
    };
    Reply { status, json: false, body: String::new() }
}

impl Note {
    /// A note as a successful response: 200 with its JSON object.
    pub fn respond_to(self) -> (r: Reply)
        ensures
            r.status == STATUS_OK,
            r.json,
            r.body@ == note_json_of(self),
    {
        let body = note_json(&self);
        Reply { status: STATUS_OK, json: true, body }
    }
}

impl ErrNoId {
    /// The status of a failed lookup: 404.
    pub fn status_code(&self) -> (r: u16)
        ensures
            r == STATUS_NOT_FOUND,
    {
        STATUS_NOT_FOUND
    }

    /// A failed lookup as a response: 404 with `{"id":..,"err":..}`.
    pub fn error_response(&self) -> (r: Reply)
        ensures
            r.status == STATUS_NOT_FOUND,
            !r.json,
            r.body@ == err_json_of(self.id, self.err@),
    {
        let body = err_json(self);
        Reply { status: self.status_code(), json: false, body }
    }
}

/// GET /notes: 200 with every note, in order, as a JSON array.
pub fn get_notes(store: &NoteStore) -> (r: Reply)
    ensures
        r.status == STATUS_OK,
        r.json,
        r.body@ == notes_json_of(store@),
{
    let notes = store.list();
    let body = notes_json(&notes);
    Reply { status: STATUS_OK, json: true, body }
}

/// GET /notes/{id}: 200 with the first note that carries `id`, or 404.
pub fn get_note(store: &NoteStore, id: u32) -> (r: Reply)
    ensures
        has_id(store@, id) ==> r.status == STATUS_OK && r.json
            && r.body@ == note_json_of(store@[first_with_id(store@, id)]),
        !has_id(store@, id) ==> r.status == STATUS_NOT_FOUND && !r.json
            && r.body@ == err_json_of(id, lookup_message()),
{
    match store.get(id) {
        Ok(note) => note.respond_to(),
        Err(e) => e.error_response(),
    }
}

/// PUT /notes/{id}: puts `note` in the place of the first note that carries
/// `id` and answers 200 with it, or 404 with the store unchanged.
pub fn update_note(store: &mut NoteStore, id: u32, note: Note) -> (r: Reply)
    ensures
        has_id(old(store)@, id) ==> {
            &&& r.status == STATUS_OK
            &&& r.json
            &&& r.body@ == note_json_of(note)
            &&& final(store)@ == old(store)@.update(first_with_id(old(store)@, id), note)
        },
        !has_id(old(store)@, id) ==> {
            &&& r.status == STATUS_NOT_FOUND
            &&& !r.json
            &&& r.body@ == err_json_of(id, change_message())
            &&& final(store)@ == old(store)@
        },
{
    match store.update(id, note) {
        Ok(n) => n.respond_to(),
        Err(e) => e.error_response(),
    }
}

/// POST /notes: adds `note` after every note held and answers 201 with it.
pub fn take_note(store: &mut NoteStore, note: Note) -> (r: Reply)
    ensures
        r.status == STATUS_CREATED,
        r.json,
        r.body@ == note_json_of(note),
        final(store)@ == old(store)@.push(note),
{
    let n = store.create(note);
    let body = note_json(&n);
    Reply { status: STATUS_CREATED, json: true, body }
}

/// DELETE /notes/{id}: removes the first note that carries `id` and answers
/// 200 with it, or 404 with the store unchanged.
pub fn delete_note(store: &mut NoteStore, id: u32) -> (r: Reply)
    ensures
        has_id(old(store)@, id) ==> {
            &&& r.status == STATUS_OK
            &&& r.json
            &&& r.body@ == note_json_of(old(store)@[first_with_id(old(store)@, id)])
            &&& final(store)@ == old(store)@.remove(first_with_id(old(store)@, id))
        },
        !has_id(old(store)@, id) ==> {
            &&& r.status == STATUS_NOT_FOUND
            &&& !r.json
            &&& r.body@ == err_json_of(id, change_message())
            &&& final(store)@ == old(store)@
        },
{
    match store.delete(id) {
        Ok(n) => n.respond_to(),
        Err(e) => e.error_response(),
    }
}

} // verus!
