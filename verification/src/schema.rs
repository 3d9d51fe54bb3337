//! JSON Schema documents that describe the arguments a tool accepts.

use vstd::prelude::*;
use vstd::string::StringExecFns;

use crate::json::{members_of, models_of, JsonModel, JsonValue};

verus! {

/// A property of JSON type `kind`, with a description.
pub open spec fn property(kind: Seq<char>, description: Seq<char>) -> JsonModel {
    JsonModel::Object(
        Seq::empty().push(("type"@, JsonModel::Text(kind))).push(
            ("description"@, JsonModel::Text(description)),
        ),
    )
}

/// A string property whose value is one of `choices`, with a description.
pub open spec fn choice_property(choices: Seq<JsonModel>, description: Seq<char>) -> JsonModel {
    JsonModel::Object(
        Seq::empty().push(("type"@, JsonModel::Text("string"@))).push(
            ("enum"@, JsonModel::Array(choices)),
        ).push(("description"@, JsonModel::Text(description))),
    )
}

/// The schema of an object with the given properties, of which `action` alone is
/// required.
pub open spec fn action_object(properties: Seq<(Seq<char>, JsonModel)>) -> JsonModel {
    JsonModel::Object(
        Seq::empty().push(("type"@, JsonModel::Text("object"@))).push(
            ("properties"@, JsonModel::Object(properties)),
        ).push(("required"@, JsonModel::Array(Seq::empty().push(JsonModel::Text("action"@))))),
    )
}

/// The JSON strings holding `names`, in order.
pub open spec fn texts(names: Seq<Seq<char>>) -> Seq<JsonModel> {
    names.map_values(|n: Seq<char>| JsonModel::Text(n))
}

/// A JSON string holding `text`.
pub fn text_value(text: &str) -> (r: JsonValue)
    ensures
        r.model() == JsonModel::Text(text@),
{
    JsonValue::String(String::from_str(text))
}

/// Appends the member `key: value` to the members of an object being built.
pub fn push_member(members: &mut Vec<(String, JsonValue)>, key: &str, value: JsonValue)
    ensures
        members_of(final(members)@) == members_of(old(members)@).push((key@, value.model())),
{
    let ghost before = members@;
    members.push((String::from_str(key), value));
    assert(members@.drop_last() =~= before);
}

/// Appends `value` to the items of an array being built.
pub fn push_item(items: &mut Vec<JsonValue>, value: JsonValue)
    ensures
        models_of(final(items)@) == models_of(old(items)@).push(value.model()),
{
    let ghost before = items@;
    items.push(value);
    assert(items@.drop_last() =~= before);
}

/// The schema of a property of JSON type `kind`.
pub fn property_schema(kind: &str, description: &str) -> (r: JsonValue)
    ensures
        r.model() == property(kind@, description@),
{
    let mut members: Vec<(String, JsonValue)> = Vec::new();
    push_member(&mut members, "type", text_value(kind));
    push_member(&mut members, "description", text_value(description));
    JsonValue::Object(members)
}

/// The schema of a string property restricted to the strings in `choices`.
pub fn choice_schema(choices: Vec<JsonValue>, description: &str) -> (r: JsonValue)
    ensures
        r.model() == choice_property(models_of(choices@), description@),
{
    let mut members: Vec<(String, JsonValue)> = Vec::new();
    push_member(&mut members, "type", text_value("string"));
    push_member(&mut members, "enum", JsonValue::Array(choices));
    push_member(&mut members, "description", text_value(description));
    JsonValue::Object(members)
}

/// The schema of an object with the given properties, `action` being required.
pub fn action_schema(properties: Vec<(String, JsonValue)>) -> (r: JsonValue)
    ensures
        r.model() == action_object(members_of(properties@)),
{
    let mut required: Vec<JsonValue> = Vec::new();
    push_item(&mut required, text_value("action"));
    let mut members: Vec<(String, JsonValue)> = Vec::new();
    push_member(&mut members, "type", text_value("object"));
    push_member(&mut members, "properties", JsonValue::Object(properties));
    push_member(&mut members, "required", JsonValue::Array(required));
    JsonValue::Object(members)
}

} // verus!
