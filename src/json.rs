use vstd::prelude::*;

use crate::note::{ErrNoId, Note};

verus! {

/// The JSON string literal (quotes and escapes included) that `serde_json`
/// writes for the text `s`.
pub uninterp spec fn json_string_of(s: Seq<char>) -> Seq<char>;

/// Relies on `serde_json::to_string` applied to a `str`: it returns the JSON
/// string literal for the text, which depends on the text alone. Serialising
/// a `str` into memory does not fail: the writer is a `Vec<u8>`.
#[verifier::external_body]
fn json_string(s: &str) -> (r: String)
    ensures
        r@ == json_string_of(s@),
{
    serde_json::to_string(s).unwrap_or_default()
}

/// The character of the decimal digit `d`.
pub open spec fn digit_char(d: nat) -> char {
    if d == 0 { '0' }
    else if d == 1 { '1' }
    else if d == 2 { '2' }
    else if d == 3 { '3' }
    else if d == 4 { '4' }
    else if d == 5 { '5' }
    else if d == 6 { '6' }
    else if d == 7 { '7' }
    else if d == 8 { '8' }
    else { '9' }
}

/// The decimal digits of `n`, without leading zeros.
pub open spec fn decimal(n: nat) -> Seq<char>
    decreases n,
{
    if n < 10 {
        seq![digit_char(n)]
    } else {
        decimal(n / 10).push(digit_char(n % 10))
    }
}

/// The JSON object for a note, fields in declaration order, no whitespace.
pub open spec fn note_json_of(n: Note) -> Seq<char> {
    "{\"id\":"@ + decimal(n.id as nat) + ",\"text\":"@ + json_string_of(n.text@) + "}"@
}

/// The JSON objects of the notes of `s`, separated by commas.
pub open spec fn note_items_of(s: Seq<Note>) -> Seq<char>
    decreases s.len(),
{
    if s.len() == 0 {
        Seq::empty()
    } else if s.len() == 1 {
        note_json_of(s[0])
    } else {
        note_items_of(s.drop_last()) + ","@ + note_json_of(s.last())
    }
}

/// The JSON array of the notes of `s`, in order.
pub open spec fn notes_json_of(s: Seq<Note>) -> Seq<char> {
    "["@ + note_items_of(s) + "]"@
}

/// The JSON object for a failed lookup.
pub open spec fn err_json_of(id: u32, err: Seq<char>) -> Seq<char> {
    "{\"id\":"@ + decimal(id as nat) + ",\"err\":"@ + json_string_of(err) + "}"@
}

/// The one-character text of the decimal digit `d`.
fn digit_str(d: u32) -> (r: &'static str)
    requires
        d < 10,
    ensures
        r@ == seq![digit_char(d as nat)],
{
    proof {
        reveal_strlit("0");
        reveal_strlit("1");
        reveal_strlit("2");
        reveal_strlit("3");
        reveal_strlit("4");
        reveal_strlit("5");
        reveal_strlit("6");
        reveal_strlit("7");
        reveal_strlit("8");
        reveal_strlit("9");
    }
    if d == 0 { "0" }
    else if d == 1 { "1" }
    else if d == 2 { "2" }
    else if d == 3 { "3" }
    else if d == 4 { "4" }
    else if d == 5 { "5" }
    else if d == 6 { "6" }
    else if d == 7 { "7" }
    else if d == 8 { "8" }
    else { "9" }
}

/// The decimal digits of `n`.
pub fn decimal_string(n: u32) -> (r: String)
    ensures
        r@ == decimal(n as nat),
    decreases n,
{
    if n < 10 {
        String::from_str(digit_str(n))
    } else {
        let mut s = decimal_string(n / 10);
        s.append(digit_str(n % 10));
        s
    }
}

/// The JSON object for a note: `{"id":<id>,"text":<text>}`.
pub fn note_json(n: &Note) -> (r: String)
    ensures
        r@ == note_json_of(*n),
{
    let mut s = String::from_str("{\"id\":");
    let digits = decimal_string(n.id);
    s.append(digits.as_str());
    s.append(",\"text\":");
    let text = json_string(n.text.as_str());
    s.append(text.as_str());
    s.append("}");
    s
}

/// The JSON array of the notes, in order.
pub fn notes_json(notes: &Vec<Note>) -> (r: String)
    ensures
        r@ == notes_json_of(notes@),
{
    let mut s = String::from_str("[");
    let mut i: usize = 0;
    while i < notes.len()
        invariant
            0 <= i <= notes@.len(),
            s@ == "["@ + note_items_of(notes@.subrange(0, i as int)),
        decreases notes@.len() - i,
    {
        let ghost before = notes@.subrange(0, i as int);
        let ghost after = notes@.subrange(0, i + 1);
        if i > 0 {
            s.append(",");
        }
        let item = note_json(&notes[i]);
        s.append(item.as_str());
        proof {
            assert(after.drop_last() =~= before);
            assert(after.last() == notes@[i as int]);
            if i == 0 {
                assert(before.len() == 0);
                assert(note_items_of(before) =~= Seq::<char>::empty());
            }
        }
        i = i + 1;
    }
    assert(notes@.subrange(0, notes@.len() as int) =~= notes@);
    s.append("]");
    s
}

/// The JSON object for a failed lookup: `{"id":<id>,"err":<message>}`.
pub fn err_json(e: &ErrNoId) -> (r: String)
    ensures
        r@ == err_json_of(e.id, e.err@),
{
    let mut s = String::from_str("{\"id\":");
    let digits = decimal_string(e.id);
    s.append(digits.as_str());
    s.append(",\"err\":");
    let text = json_string(e.err.as_str());
    s.append(text.as_str());
    s.append("}");
    s
}

} // verus!
