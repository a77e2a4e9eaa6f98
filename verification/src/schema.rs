//! Fields of a processor's settings, as its schema describes them.
//!
//! A schema gives a field a title, a type, a default and limits, and any of them may be
//! missing. Numbers with a fraction are left to the window.

use vstd::prelude::*;

use crate::text::{optional_text, same_text};

verus! {

/// What a schema says of a field, as far as it says it, and the value that is set.
#[derive(Debug)]
pub struct FieldSchema {
    pub title: Option<String>,
    pub description: Option<String>,
    pub kind: Option<String>,
    pub default_integer: Option<i64>,
    pub minimum: Option<i64>,
    pub maximum: Option<i64>,
    pub default_boolean: Option<bool>,
    pub default_text: Option<String>,
    pub set_integer: Option<i64>,
    pub set_boolean: Option<bool>,
    pub set_text: Option<String>,
}

/// A field as it is shown.
#[derive(Debug)]
pub enum Field {
    /// A number with a fraction.
    Number,
    /// A whole number, on a slider.
    Integer { value: i32, min: i32, max: i32 },
    Boolean(bool),
    Text(String),
}

/// The low 32 bits of a number, with their sign.
pub open spec fn narrow(value: i64) -> int {
    #[verifier::truncate]
    (value as i32) as int
}

/// A number where there is one, or else another.
pub open spec fn number_or(value: Option<i64>, other: i64) -> i64 {
    match value {
        Some(inner) => inner,
        None => other,
    }
}

/// A text where there is one, or else another.
pub open spec fn text_or(value: Option<Seq<char>>, other: Seq<char>) -> Seq<char> {
    match value {
        Some(inner) => inner,
        None => other,
    }
}

/// The type of a field: text, where nothing is said.
pub open spec fn kind_of(schema: FieldSchema) -> Seq<char> {
    text_or(optional_text(schema.kind), "string"@)
}

/// Whether `field` is how a field of this schema is shown: with the value that is set, or
/// else with the default.
pub open spec fn is_field(schema: FieldSchema, field: Field) -> bool {
    if kind_of(schema) == "number"@ {
        field is Number
    } else if kind_of(schema) == "integer"@ {
        field matches Field::Integer { value, min, max } && value == narrow(
            number_or(schema.set_integer, number_or(schema.default_integer, 0)),
        ) && min == narrow(number_or(schema.minimum, 0)) && max == narrow(
            number_or(schema.maximum, 1000),
        )
    } else if kind_of(schema) == "boolean"@ {
        field == Field::Boolean(
            match (schema.set_boolean, schema.default_boolean) {
                (Some(set), _) => set,
                (None, Some(default)) => default,
                (None, None) => false,
            },
        )
    } else {
        field matches Field::Text(text) && text@ == text_or(
            optional_text(schema.set_text),
            text_or(optional_text(schema.default_text), ""@),
        )
    }
}

fn narrow_number(value: i64) -> (low: i32)
    ensures
        low == narrow(value),
{
    #[verifier::truncate]
    (value as i32)
}

fn pick_number(value: Option<i64>, other: i64) -> (number: i64)
    ensures
        number == number_or(value, other),
{
    match value {
        Some(inner) => inner,
        None => other,
    }
}

fn pick_text(value: &Option<String>, other: &str) -> (text: String)
    ensures
        text@ == text_or(optional_text(*value), other@),
{
    match value {
        Some(inner) => inner.clone(),
        None => other.to_owned(),
    }
}

/// The title of a field: its key, where nothing is said.
pub fn field_title(key: &str, schema: &FieldSchema) -> (title: String)
    ensures
        title@ == text_or(optional_text(schema.title), key@),
{
    pick_text(&schema.title, key)
}

/// The description of a field: nothing, where nothing is said.
pub fn field_description(schema: &FieldSchema) -> (text: String)
    ensures
        text@ == text_or(optional_text(schema.description), ""@),
{
    pick_text(&schema.description, "")
}

/// How a field is shown.
pub fn render_schema_field(schema: &FieldSchema) -> (field: Field)
    ensures
        is_field(*schema, field),
{
    let kind = pick_text(&schema.kind, "string");
    if same_text(kind.as_str(), "number") {
        Field::Number
    } else if same_text(kind.as_str(), "integer") {
        let default: i64 = pick_number(schema.default_integer, 0);
        Field::Integer {
            value: narrow_number(pick_number(schema.set_integer, default)),
            min: narrow_number(pick_number(schema.minimum, 0)),
            max: narrow_number(pick_number(schema.maximum, 1000)),
        }
    } else if same_text(kind.as_str(), "boolean") {
        Field::Boolean(
            match (schema.set_boolean, schema.default_boolean) {
                (Some(set), _) => set,
                (None, Some(default)) => default,
                (None, None) => false,
            },
        )
    } else {
        let default = pick_text(&schema.default_text, "");
        Field::Text(pick_text(&schema.set_text, default.as_str()))
    }
}

} // verus!
