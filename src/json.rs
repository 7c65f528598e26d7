//! JSON text for a cell: the calls into serde_json, and the quote stripping
//! that turns a serialized JSON string into its bare content.
use vstd::prelude::*;

verus! {

#[verifier::external_type_specification]
#[verifier::external_body]
pub struct ExJsonValue(serde_json::Value);

#[verifier::external_type_specification]
#[verifier::external_body]
pub struct ExJsonError(serde_json::Error);

/// The value that a JSON pointer selects inside a JSON value, if any.
pub uninterp spec fn json_at(v: serde_json::Value, pointer: Seq<char>) -> Option<serde_json::Value>;

/// Compact JSON text of a value (`None` serializes as `null`); `None` when
/// serialization fails.
pub uninterp spec fn compact_json(v: Option<serde_json::Value>) -> Option<Seq<char>>;

/// Pretty-printed JSON text of a value (`None` serializes as `null`); `None`
/// when serialization fails.
pub uninterp spec fn pretty_json(v: Option<serde_json::Value>) -> Option<Seq<char>>;

/// The JSON string value that holds the given text.
pub uninterp spec fn string_json(s: Seq<char>) -> serde_json::Value;

/// Relies on `Clone` for `serde_json::Value`: the copy is the same JSON value.
pub assume_specification[ <serde_json::Value as Clone>::clone ](v: &serde_json::Value) -> (r:
    serde_json::Value)
    ensures
        r == *v,
;

/// Relies on `serde_json::Value::pointer`: the value found at a JSON pointer;
/// the empty pointer selects the whole value.
#[verifier::external_body]
pub(crate) fn lookup_pointer(v: &serde_json::Value, pointer: &str) -> (r: Option<serde_json::Value>)
    ensures
        r == json_at(*v, pointer@),
        pointer@.len() == 0 ==> r == Some(*v),
{
    v.pointer(pointer).cloned()
}

/// Relies on `serde_json::to_string`: compact JSON text, or its error; a
/// missing value is written as `null`.
#[verifier::external_body]
pub(crate) fn to_compact_json(v: &Option<serde_json::Value>) -> (r: Result<String, serde_json::Error>)
    ensures
        json_outcome(r) == compact_json(*v),
        *v is None ==> json_outcome(r) == Some("null"@),
{
    serde_json::to_string(v)
}

/// Relies on `serde_json::to_string_pretty`: indented JSON text, or its
/// error; a missing value is written as `null`.
#[verifier::external_body]
pub(crate) fn to_pretty_json(v: &Option<serde_json::Value>) -> (r: Result<String, serde_json::Error>)
    ensures
        json_outcome(r) == pretty_json(*v),
        *v is None ==> json_outcome(r) == Some("null"@),
{
    serde_json::to_string_pretty(v)
}

/// Relies on `From<&str>` for `serde_json::Value`: a JSON string holding the text.
#[verifier::external_body]
pub(crate) fn json_from_text(s: &str) -> (r: serde_json::Value)
    ensures
        r == string_json(s@),
{
    serde_json::Value::from(s)
}

/// The text of a serialization outcome, `None` for an error.
pub open spec fn json_outcome(r: Result<String, serde_json::Error>) -> Option<Seq<char>> {
    match r {
        Ok(s) => Some(s@),
        Err(_) => None,
    }
}

/// The text of the cell whose value could not be serialized.
pub open spec fn error_marker() -> Seq<char> {
    "<ERROR SERIALIZING DATA>"@
}

/// One layer of surrounding quotes removed: a leading `"` and a trailing `"`,
/// each where present.
pub open spec fn strip_quotes_spec(s: Seq<char>) -> Seq<char> {
    let a = if s.len() > 0 && s[0] == '"' {
        s.drop_first()
    } else {
        s
    };
    if a.len() > 0 && a.last() == '"' {
        a.drop_last()
    } else {
        a
    }
}

/// The cell for a serialization outcome: the text without its surrounding
/// quotes, or the error marker.
pub open spec fn serialized_text(r: Option<Seq<char>>) -> Seq<char> {
    match r {
        Some(t) => strip_quotes_spec(t),
        None => error_marker(),
    }
}

/// Removes one leading and one trailing quote character, where present.
pub fn strip_quotes(s: &str) -> (r: String)
    ensures
        r@ == strip_quotes_spec(s@),
{
    let n = s.unicode_len();
    let start: usize = if n > 0 && s.get_char(0) == '"' {
        1
    } else {
        0
    };
    let end: usize = if n > start && s.get_char(n - 1) == '"' {
        n - 1
    } else {
        n
    };
    let r = s.substring_char(start, end).to_owned();
    assert(r@ =~= strip_quotes_spec(s@));
    r
}

/// Turns the outcome of a serialization into cell text: the JSON text without
/// its surrounding quotes, or the error marker when serialization failed.
pub fn serialized_cell(r: Result<String, serde_json::Error>) -> (c: String)
    ensures
        c@ == serialized_text(json_outcome(r)),
{
    match r {
        Ok(s) => strip_quotes(s.as_str()),
        Err(_) => {
            let c = String::from_str("<ERROR SERIALIZING DATA>");
            c
        },
    }
}

} // verus!
