//! Field descriptors, raw field values, and the rendering of one value into
//! an optional cell.
use vstd::prelude::*;
use crate::json::{
    compact_json, error_marker, json_at, json_from_text, lookup_pointer, pretty_json,
    serialized_cell, serialized_text, string_json, to_compact_json, to_pretty_json,
};

verus! {

/// How one declared field of a record type maps to a column.
#[derive(Clone, Debug)]
pub struct FieldDescriptor {
    /// Column title.
    pub title: String,
    /// Returned only in wide mode, or when requested by title.
    pub wide: bool,
    /// The value may be absent; an absent value gives no cell.
    pub optional: bool,
    /// Serialize as pretty JSON when pretty mode is on.
    pub pretty: bool,
    /// Serialize the value as JSON text.
    pub serialize: bool,
    /// This field holds the record's status.
    pub status: bool,
}

impl FieldDescriptor {
    /// A plain field with the given title and no flags set.
    pub fn new(title: &str) -> (r: Self)
        ensures
            r.title@ == title@,
            !r.wide && !r.optional && !r.pretty && !r.serialize && !r.status,
    {
        FieldDescriptor {
            title: title.to_owned(),
            wide: false,
            optional: false,
            pretty: false,
            serialize: false,
            status: false,
        }
    }
}

/// The raw value of one field of a record.
#[derive(Clone, Debug)]
pub enum FieldValue {
    /// No value (an unset optional field).
    Absent,
    /// A value given by its plain text form.
    Text(String),
    /// A structured value.
    Json(serde_json::Value),
    /// A value that could not be converted to JSON; its cell is the error
    /// marker.
    Unserializable,
}

/// The JSON value that a field value stands for, when it is present.
pub open spec fn json_of(v: FieldValue) -> serde_json::Value
    recommends
        v is Text || v is Json,
{
    match v {
        FieldValue::Text(s) => string_json(s@),
        FieldValue::Json(j) => j,
        _ => string_json(Seq::empty()),
    }
}

/// The part of a JSON value that a pointer selects; the whole value when
/// there is no pointer.
pub open spec fn json_target(j: serde_json::Value, pointer: Option<Seq<char>>) -> Option<serde_json::Value> {
    match pointer {
        Some(p) => json_at(j, p),
        None => Some(j),
    }
}

/// Serialized text of an optional JSON value, pretty or compact.
pub open spec fn json_text(t: Option<serde_json::Value>, pretty: bool) -> Option<Seq<char>> {
    if pretty {
        pretty_json(t)
    } else {
        compact_json(t)
    }
}

/// The cell of a field value: absent for an absent value (absence alone
/// decides; descriptors flag the fields that may be absent `optional`, and
/// a record gives `Absent` for no other field); the error marker
/// for a value that could not be converted to JSON; the plain text for
/// a field that is not serialized; otherwise the JSON text of the value (or of
/// the part that the pointer selects, `null` where it selects nothing) with
/// one layer of quotes removed, or the error marker.
pub open spec fn cell_text(
    v: FieldValue,
    f: FieldDescriptor,
    pointer: Option<Seq<char>>,
    pretty: bool,
) -> Option<Seq<char>> {
    if v is Absent {
        None
    } else if v is Unserializable {
        Some(error_marker())
    } else if f.serialize || f.pretty {
        Some(serialized_text(json_text(json_target(json_of(v), pointer), pretty)))
    } else {
        match v {
            FieldValue::Text(s) => Some(s@),
            FieldValue::Json(j) => Some(
                match compact_json(Some(j)) {
                    Some(t) => t,
                    None => error_marker(),
                },
            ),
            _ => None,
        }
    }
}

/// View of an optional string.
pub open spec fn opt_text(o: Option<String>) -> Option<Seq<char>> {
    match o {
        Some(s) => Some(s@),
        None => None,
    }
}

/// Renders one field value into a cell: absent, plain text, or JSON text
/// narrowed by `pointer` and formatted compact or pretty.
pub fn render_value(
    value: &FieldValue,
    field: &FieldDescriptor,
    pointer: &Option<String>,
    pretty: bool,
) -> (r: Option<String>)
    ensures
        opt_text(r) == cell_text(*value, *field, opt_text(*pointer), pretty),
        (value is Text || value is Json) && (field.serialize || field.pretty) && json_target(
            json_of(*value),
            opt_text(*pointer),
        ) is None ==> opt_text(r) == Some("null"@),
{
    match value {
        FieldValue::Absent => None,
        FieldValue::Unserializable => Some(String::from_str("<ERROR SERIALIZING DATA>")),
        FieldValue::Text(s) => {
            if field.serialize || field.pretty {
                let j = json_from_text(s.as_str());
                Some(render_json(&j, pointer, pretty))
            } else {
                Some(s.clone())
            }
        },
        FieldValue::Json(j) => {
            if field.serialize || field.pretty {
                Some(render_json(j, pointer, pretty))
            } else {
                let whole = Some(j.clone());
                match to_compact_json(&whole) {
                    Ok(t) => Some(t),
                    Err(_) => Some(String::from_str("<ERROR SERIALIZING DATA>")),
                }
            }
        },
    }
}

/// JSON text of a value, or of the part that `pointer` selects, with one
/// layer of quotes removed; the error marker when serialization fails.
fn render_json(j: &serde_json::Value, pointer: &Option<String>, pretty: bool) -> (r: String)
    ensures
        r@ == serialized_text(json_text(json_target(*j, opt_text(*pointer)), pretty)),
        json_target(*j, opt_text(*pointer)) is None ==> r@ == "null"@,
{
    let target = match pointer {
        Some(p) => lookup_pointer(j, p.as_str()),
        None => Some(j.clone()),
    };
    let text = if pretty {
        to_pretty_json(&target)
    } else {
        to_compact_json(&target)
    };
    proof {
        reveal_strlit("null");
    }
    serialized_cell(text)
}

} // verus!
