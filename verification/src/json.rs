//! A plain model of JSON values.
//!
//! Provider configurations and free-form component properties travel as JSON.
//! The library holds such data in [`JsonValue`], a value type over plain Rust
//! data, so that the logic reading it can be specified and verified. The
//! boundary code that turns JSON text into these values lives outside the
//! library. JSON numbers are carried as `i64`; the configuration and property
//! values the providers read are strings, booleans and objects.

use vstd::prelude::*;

use crate::kvlist;

verus! {

/// A JSON value: null, boolean, integer, string, array or object.
///
/// An object is an ordered list of key/value entries; lookups find the first
/// entry with a given key, and under unique keys the entry order does not
/// matter (see [`crate::kvlist::lemma_lookup_same_entries`]).
#[derive(Debug)]
pub enum JsonValue {
    Null,
    Bool(bool),
    Int(i64),
    Str(String),
    Arr(Vec<JsonValue>),
    Obj(Vec<(String, JsonValue)>),
}

/// The string stored under `key` in a configuration object, if any.
pub open spec fn spec_string_property(v: JsonValue, key: Seq<char>) -> Option<Seq<char>> {
    match v {
        JsonValue::Obj(entries) => match kvlist::spec_lookup(entries@, key) {
            Some(JsonValue::Str(s)) => Some(s@),
            _ => None,
        },
        _ => None,
    }
}

/// Reads a string-valued property from a configuration object; any other
/// shape (not an object, key absent, value not a string) yields `None`.
pub fn get_string_property(config: &JsonValue, key: &str) -> (r: Option<String>)
    ensures
        match r {
            Some(s) => spec_string_property(*config, key@) == Some(s@),
            None => spec_string_property(*config, key@) is None,
        },
{
    match config {
        JsonValue::Obj(entries) => match kvlist::lookup(entries, key) {
            Some(JsonValue::Str(s)) => Some(s.clone()),
            _ => None,
        },
        _ => None,
    }
}

} // verus!
