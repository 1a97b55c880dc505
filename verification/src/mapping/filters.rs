//! Partial filter expressions: what the database reports of one, as the
//! JSON in which the resource holds it.

use crate::double::Double;
use crate::driver::{FilterValue, FilterValueView};
use crate::field_map::{Entries, FieldMap, placed};
use crate::json::{JsonNumber, JsonValue, JsonView};
use vstd::prelude::*;

verus! {

/// An integer as a JSON number: a negative one is a negative integer, any
/// other a non-negative one.
pub open spec fn integer_json(v: int) -> JsonView {
    if v < 0 {
        JsonView::Number(JsonNumber::NegInt(v as i64))
    } else {
        JsonView::Number(JsonNumber::PosInt(v as u64))
    }
}

/// A double as JSON: a number where it is finite, else null.
pub open spec fn double_json(d: Double) -> JsonView {
    if d.is_finite() {
        JsonView::Number(JsonNumber::Float(d))
    } else {
        JsonView::Null
    }
}

/// A reported value as JSON. A boolean, a number, a string and null are
/// themselves; a double that is not finite is null. A document is the
/// object of its entries. An array is what the driver renders it to. A
/// date is its RFC 3339 text, and null where it has none. An object id is
/// the object of the document that the driver gives for it, and null where
/// it gives none. Every other value is null.
pub open spec fn json_of(value: FilterValueView) -> JsonView
    decreases value, 0nat,
{
    match value {
        FilterValueView::Array(j) => j,
        FilterValueView::Boolean(b) => JsonView::Bool(b),
        FilterValueView::DateTime(Some(t)) => JsonView::String(t),
        FilterValueView::DateTime(None) => JsonView::Null,
        FilterValueView::Double(d) => double_json(d),
        FilterValueView::Document(entries) => JsonView::Object(
            json_members(entries, entries.len() as int),
        ),
        FilterValueView::Int32(v) => integer_json(v as int),
        FilterValueView::Int64(v) => integer_json(v as int),
        FilterValueView::Null => JsonView::Null,
        FilterValueView::ObjectId(Some(entries)) => JsonView::Object(
            json_members(entries, entries.len() as int),
        ),
        FilterValueView::ObjectId(None) => JsonView::Null,
        FilterValueView::String(s) => JsonView::String(s),
        FilterValueView::Other => JsonView::Null,
    }
}

/// The members of the JSON object for the first `n` entries of a reported
/// document: each entry is set in turn, under its name, to its value as
/// JSON. The members stand in ascending order of their names.
pub open spec fn json_members(entries: Seq<(Seq<char>, FilterValueView)>, n: int) -> Entries<
    JsonView,
>
    decreases entries, n,
{
    if n <= 0 || n > entries.len() {
        Seq::empty()
    } else {
        placed(json_members(entries, n - 1), entries[n - 1].0, json_of(entries[n - 1].1))
    }
}

/// An integer as a JSON number.
pub fn integer_to_value(v: i64) -> (r: JsonValue)
    ensures
        r@ == integer_json(v as int),
{
    if v < 0 {
        JsonValue::Number(JsonNumber::NegInt(v))
    } else {
        JsonValue::Number(JsonNumber::PosInt(v as u64))
    }
}

/// A double as JSON.
pub fn double_to_value(d: Double) -> (r: JsonValue)
    ensures
        r@ == double_json(d),
{
    if d.finite() {
        JsonValue::Number(JsonNumber::Float(d))
    } else {
        JsonValue::Null
    }
}

/// A reported date as JSON: its RFC 3339 text, or null where it has none.
pub fn date_time_to_value(text: &Option<String>) -> (r: JsonValue)
    ensures
        r@ == json_of(FilterValueView::DateTime(crate::text::text(*text))),
{
    match text {
        Some(t) => JsonValue::String(t.clone()),
        None => JsonValue::Null,
    }
}

/// A reported object id as JSON: the object of the document that the
/// driver gives for it, or null where it gives none.
pub fn object_id_to_value(document: &Option<Vec<(String, FilterValue)>>) -> (r: JsonValue)
    ensures
        r@ == json_of(
            FilterValueView::ObjectId(
                match document {
                    Some(entries) => Some(FilterValue::view_entries(entries@)),
                    None => None,
                },
            ),
        ),
    decreases document, 3nat,
{
    match document {
        Some(entries) => {
            let members = document_to_json_map(entries);
            assert(JsonValue::view_members(members@) =~= FieldMap::<JsonValue>::listed(members@));
            JsonValue::Object(members)
        },
        None => JsonValue::Null,
    }
}

/// The members of the JSON object for a reported document.
pub fn document_to_json_map(document: &Vec<(String, FilterValue)>) -> (members: Vec<
    (String, JsonValue),
>)
    ensures
        FieldMap::<JsonValue>::listed(members@) == json_members(
            FilterValue::view_entries(document@),
            document@.len() as int,
        ),
    decreases document, 2nat,
{
    filter_to_map(document).into_entries()
}

/// The map of a reported document: every entry, with its value as JSON, in
/// ascending order of the names. A name that occurs again takes the later
/// value.
#[verifier::loop_isolation(false)]
pub fn filter_to_map(document: &Vec<(String, FilterValue)>) -> (map: FieldMap<JsonValue>)
    ensures
        map@ == json_members(FilterValue::view_entries(document@), document@.len() as int),
        map.wf(),
    decreases document, 1nat,
{
    let ghost entries = FilterValue::view_entries(document@);
    let mut map: FieldMap<JsonValue> = FieldMap::new();
    let mut i: usize = 0;
    while i < document.len()
        invariant
            i <= document.len(),
            entries == FilterValue::view_entries(document@),
            entries.len() == document.len(),
            map.wf(),
            map@ == json_members(entries, i as int),
        decreases document.len() - i,
    {
        assert(entries[i as int] == (document[i as int].0@, document[i as int].1@));
        let value = bson_to_value(&document[i].1);
        map = map.with(document[i].0.clone(), value);
        i += 1;
    }
    map
}

/// A reported value as JSON.
pub fn bson_to_value(bson: &FilterValue) -> (r: JsonValue)
    ensures
        r@ == json_of(bson@),
    decreases bson, 0nat,
{
    match bson {
        FilterValue::Array(v) => v.duplicate(),
        FilterValue::Boolean(v) => JsonValue::Bool(*v),
        FilterValue::DateTime(v) => date_time_to_value(v),
        FilterValue::Double(v) => double_to_value(*v),
        FilterValue::Document(v) => {
            let members = document_to_json_map(v);
            assert(JsonValue::view_members(members@) =~= FieldMap::<JsonValue>::listed(members@));
            JsonValue::Object(members)
        },
        FilterValue::Int32(v) => integer_to_value(*v as i64),
        FilterValue::Int64(v) => integer_to_value(*v),
        FilterValue::Null => JsonValue::Null,
        FilterValue::ObjectId(v) => object_id_to_value(v),
        FilterValue::String(v) => JsonValue::String(v.clone()),
        FilterValue::Other => JsonValue::Null,
    }
}

} // verus!
