//! The library's model of a loosely shaped JSON document, and the
//! schema-tolerant, depth-first search for an answer string inside it.
//!
//! The model holds exactly what the search reads: strings, containers with
//! their entries in the order the parser hands them over, and featureless
//! leaves (a number's value is kept nowhere, since no part of the gateway
//! reads one).

use vstd::prelude::*;
use vstd::string::*;

verus! {

/// A JSON document of unknown shape, as the extraction logic reads it.
pub enum JsonValue {
    Null,
    Bool(bool),
    Num,
    Str(String),
    Arr(Vec<JsonValue>),
    Obj(Vec<(String, JsonValue)>),
}

/// The value under `key` among an object's entries, scanning from index `i`:
/// the first entry that carries the key (a parsed object holds each key at
/// most once).
pub open spec fn lookup_from(entries: Seq<(String, JsonValue)>, key: Seq<char>, i: int) -> Option<
    JsonValue,
>
    decreases entries.len() - i,
{
    if i < 0 || i >= entries.len() {
        None
    } else if entries[i].0@ == key {
        Some(entries[i].1)
    } else {
        lookup_from(entries, key, i + 1)
    }
}

/// The value under `key` among an object's entries.
pub open spec fn entry_lookup(entries: Seq<(String, JsonValue)>, key: Seq<char>) -> Option<
    JsonValue,
> {
    lookup_from(entries, key, 0)
}

/// The string under an object's `"message"` entry's own `"content"` key,
/// when the `"message"` entry exists, is an object, and holds one.
pub open spec fn message_content(entries: Seq<(String, JsonValue)>) -> Option<Seq<char>> {
    match entry_lookup(entries, "message"@) {
        Some(JsonValue::Obj(inner)) => match entry_lookup(inner@, "content"@) {
            Some(JsonValue::Str(s)) => Some(s@),
            _ => None,
        },
        _ => None,
    }
}

/// The answer string the depth-first search finds in a document, if any:
/// in an object, a string under the key `"content"` wins, then a string
/// under `"message"`'s own `"content"` key, then the first find in any
/// entry's value in entry order; in an array, the first find in any element
/// in element order; a bare string leaf is itself no candidate.
pub open spec fn extract_spec(v: JsonValue) -> Option<Seq<char>>
    decreases v, 0int,
{
    match v {
        JsonValue::Obj(entries) => match entry_lookup(entries@, "content"@) {
            Some(JsonValue::Str(s)) => Some(s@),
            _ => match message_content(entries@) {
                Some(c) => Some(c),
                None => extract_entries(entries@, 0),
            },
        },
        JsonValue::Arr(elems) => extract_list(elems@, 0),
        _ => None,
    }
}

/// The first find among an array's elements, from index `i` on.
pub open spec fn extract_list(elems: Seq<JsonValue>, i: int) -> Option<Seq<char>>
    decreases elems, elems.len() - i,
{
    if i < 0 || i >= elems.len() {
        None
    } else {
        match extract_spec(elems[i]) {
            Some(c) => Some(c),
            None => extract_list(elems, i + 1),
        }
    }
}

/// The first find among an object's entry values, from index `i` on.
pub open spec fn extract_entries(entries: Seq<(String, JsonValue)>, i: int) -> Option<Seq<char>>
    decreases entries, entries.len() - i,
{
    if i < 0 || i >= entries.len() {
        None
    } else {
        match extract_spec(entries[i].1) {
            Some(c) => Some(c),
            None => extract_entries(entries, i + 1),
        }
    }
}

/// Scans an object's entries for `key`, from index `i` on.
fn lookup_at<'a>(entries: &'a Vec<(String, JsonValue)>, key: &String, i: usize) -> (r: Option<
    &'a JsonValue,
>)
    requires
        i <= entries.len(),
    ensures
        match r {
            Some(v) => lookup_from(entries@, key@, i as int) == Some(*v),
            None => lookup_from(entries@, key@, i as int) is None,
        },
    decreases entries@.len() - i,
{
    if i == entries.len() {
        None
    } else {
        let pair = &entries[i];
        if pair.0 == *key {
            Some(&pair.1)
        } else {
            lookup_at(entries, key, i + 1)
        }
    }
}

/// Runs the depth-first search over a document, exactly as `extract_spec`
/// describes it.
pub fn extract_content(v: &JsonValue) -> (r: Option<String>)
    ensures
        match r {
            Some(c) => extract_spec(*v) == Some(c@),
            None => extract_spec(*v) is None,
        },
    decreases *v, 0int,
{
    match v {
        JsonValue::Obj(entries) => {
            let content_key = String::from_str("content");
            match lookup_at(entries, &content_key, 0) {
                Some(JsonValue::Str(s)) => Some(s.clone()),
                _ => {
                    let message_key = String::from_str("message");
                    let from_message = match lookup_at(entries, &message_key, 0) {
                        Some(JsonValue::Obj(inner)) => match lookup_at(inner, &content_key, 0) {
                            Some(JsonValue::Str(s)) => Some(s.clone()),
                            _ => None,
                        },
                        _ => None,
                    };
                    match from_message {
                        Some(c) => Some(c),
                        None => extract_from_entries(entries, 0),
                    }
                },
            }
        },
        JsonValue::Arr(elems) => extract_from_list(elems, 0),
        _ => None,
    }
}

/// Searches an array's elements in order, from index `i` on.
fn extract_from_list(elems: &Vec<JsonValue>, i: usize) -> (r: Option<String>)
    requires
        i <= elems.len(),
    ensures
        match r {
            Some(c) => extract_list(elems@, i as int) == Some(c@),
            None => extract_list(elems@, i as int) is None,
        },
    decreases elems@, elems@.len() - i,
{
    if i == elems.len() {
        None
    } else {
        match extract_content(&elems[i]) {
            Some(c) => Some(c),
            None => extract_from_list(elems, i + 1),
        }
    }
}

/// Searches an object's entry values in entry order, from index `i` on.
fn extract_from_entries(entries: &Vec<(String, JsonValue)>, i: usize) -> (r: Option<String>)
    requires
        i <= entries.len(),
    ensures
        match r {
            Some(c) => extract_entries(entries@, i as int) == Some(c@),
            None => extract_entries(entries@, i as int) is None,
        },
    decreases entries@, entries@.len() - i,
{
    if i == entries.len() {
        None
    } else {
        match extract_content(&entries[i].1) {
            Some(c) => Some(c),
            None => extract_from_entries(entries, i + 1),
        }
    }
}

} // verus!
