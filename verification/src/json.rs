//! JSON documents as plain values, and reading them by key.
use vstd::prelude::*;

use crate::text::{chars_of, seq_eq, string_of};

verus! {

/// A JSON value. Numbers are kept as their text; an object's members are
/// in the order its map yields them.
#[derive(Debug)]
pub enum JsonValue {
    Null,
    Bool(bool),
    Number(String),
    Text(String),
    Array(Vec<JsonValue>),
    Object(Vec<JsonMember>),
}

/// A member of an object: its key and value.
#[derive(Debug)]
pub struct JsonMember {
    pub key: String,
    pub value: JsonValue,
}

/// The value of the first member named `key`.
pub open spec fn member(entries: Seq<JsonMember>, key: Seq<char>) -> Option<JsonValue>
    decreases entries.len(),
{
    if entries.len() == 0 {
        None
    } else if entries[0].key@ == key {
        Some(entries[0].value)
    } else {
        member(entries.drop_first(), key)
    }
}

/// The member `key` of an object; nothing for any other value.
pub open spec fn get(v: JsonValue, key: Seq<char>) -> Option<JsonValue> {
    match v {
        JsonValue::Object(entries) => member(entries@, key),
        _ => None,
    }
}

/// `get` on a value that may be missing.
pub open spec fn get_opt(v: Option<JsonValue>, key: Seq<char>) -> Option<JsonValue> {
    match v {
        Some(x) => get(x, key),
        None => None,
    }
}

/// The text of a value that is text.
pub open spec fn as_text(v: Option<JsonValue>) -> Option<Seq<char>> {
    match v {
        Some(JsonValue::Text(t)) => Some(t@),
        _ => None,
    }
}

/// The member `key` of an object (`Value::get`).
pub fn json_get<'a>(v: &'a JsonValue, key: &str) -> (r: Option<&'a JsonValue>)
    ensures
        match r {
            Some(x) => get(*v, key@) == Some(*x),
            None => get(*v, key@) is None,
        },
{
    match v {
        JsonValue::Object(entries) => {
            let k = chars_of(key);
            let mut i: usize = 0;
            assert(entries@.subrange(0, entries@.len() as int) =~= entries@);
            while i < entries.len()
                invariant
                    i <= entries.len(),
                    k@ == key@,
                    get(*v, key@) == member(entries@, key@),
                    member(entries@, key@) == member(
                        entries@.subrange(i as int, entries@.len() as int),
                        key@,
                    ),
                decreases entries.len() - i,
            {
                let ghost rest = entries@.subrange(i as int, entries@.len() as int);
                assert(rest.drop_first() =~= entries@.subrange(i + 1, entries@.len() as int));
                assert(rest[0] == entries@[i as int]);
                if seq_eq(&chars_of(entries[i].key.as_str()), &k) {
                    assert(rest[0].key@ == key@);
                    assert(member(rest, key@) == Some(rest[0].value));
                    return Some(&entries[i].value);
                }
                i += 1;
            }
            None
        },
        _ => None,
    }
}

/// `json_get` on a value that may be missing.
pub fn json_get_opt<'a>(v: Option<&'a JsonValue>, key: &str) -> (r: Option<&'a JsonValue>)
    ensures
        match r {
            Some(x) => get_opt(
                match v {
                    Some(y) => Some(*y),
                    None => None,
                },
                key@,
            ) == Some(*x),
            None => get_opt(
                match v {
                    Some(y) => Some(*y),
                    None => None,
                },
                key@,
            ) is None,
        },
{
    match v {
        Some(x) => json_get(x, key),
        None => None,
    }
}

/// The text of a value that is text (`Value::as_str`).
pub fn json_text(v: Option<&JsonValue>) -> (r: Option<&str>)
    ensures
        crate::text::opt_view(r) == as_text(
            match v {
                Some(y) => Some(*y),
                None => None,
            },
        ),
{
    match v {
        Some(JsonValue::Text(t)) => Some(t.as_str()),
        _ => None,
    }
}

} // verus!
