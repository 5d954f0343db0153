use vstd::prelude::*;

verus! {

/// The string found at JSON pointer `pointer` in the JSON text `text`, if any.
pub uninterp spec fn json_str_at(text: Seq<char>, pointer: Seq<char>) -> Option<Seq<char>>;

/// The boolean found at JSON pointer `pointer` in the JSON text `text`, if any.
pub uninterp spec fn json_bool_at(text: Seq<char>, pointer: Seq<char>) -> Option<bool>;

/// Whether an object stands at JSON pointer `pointer` in the JSON text `text`.
pub uninterp spec fn json_object_at(text: Seq<char>, pointer: Seq<char>) -> bool;

/// The length of the array at JSON pointer `pointer` in the JSON text `text`, if any.
pub uninterp spec fn json_array_len_at(text: Seq<char>, pointer: Seq<char>) -> Option<nat>;

/// Relies on `serde_json::from_str::<Value>`, `Value::pointer` and `Value::as_str`: the
/// string at `pointer` when `text` parses as JSON and holds a string there.
#[verifier::external_body]
pub(crate) fn json_string_at(text: &str, pointer: &str) -> (r: Option<String>)
    ensures
        match r {
            Some(s) => json_str_at(text@, pointer@) == Some(s@),
            None => json_str_at(text@, pointer@) is None,
        },
{
    match serde_json::from_str::<serde_json::Value>(text) {
        Ok(v) => match v.pointer(pointer) {
            Some(x) => match x.as_str() {
                Some(s) => Some(s.to_string()),
                None => None,
            },
            None => None,
        },
        Err(_) => None,
    }
}

/// Relies on `serde_json::from_str::<Value>`, `Value::pointer` and `Value::as_bool`: the
/// boolean at `pointer` when `text` parses as JSON and holds one there.
#[verifier::external_body]
pub(crate) fn json_boolean_at(text: &str, pointer: &str) -> (r: Option<bool>)
    ensures
        r == json_bool_at(text@, pointer@),
{
    match serde_json::from_str::<serde_json::Value>(text) {
        Ok(v) => match v.pointer(pointer) {
            Some(x) => x.as_bool(),
            None => None,
        },
        Err(_) => None,
    }
}

/// Relies on `serde_json::from_str::<Value>`, `Value::pointer` and `Value::is_object`.
#[verifier::external_body]
pub(crate) fn json_has_object_at(text: &str, pointer: &str) -> (r: bool)
    ensures
        r == json_object_at(text@, pointer@),
{
    match serde_json::from_str::<serde_json::Value>(text) {
        Ok(v) => match v.pointer(pointer) {
            Some(x) => x.is_object(),
            None => false,
        },
        Err(_) => false,
    }
}

/// Relies on `serde_json::from_str::<Value>`, `Value::pointer` and `Value::as_array`: the
/// number of items of the array at `pointer`.
#[verifier::external_body]
pub(crate) fn json_array_length_at(text: &str, pointer: &str) -> (r: Option<usize>)
    ensures
        match r {
            Some(n) => json_array_len_at(text@, pointer@) == Some(n as nat),
            None => json_array_len_at(text@, pointer@) is None,
        },
{
    match serde_json::from_str::<serde_json::Value>(text) {
        Ok(v) => match v.pointer(pointer) {
            Some(x) => match x.as_array() {
                Some(a) => Some(a.len()),
                None => None,
            },
            None => None,
        },
        Err(_) => None,
    }
}

} // verus!
