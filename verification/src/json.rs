//! JSON values and their texts.
//!
//! The values are those of `serde_json`. A contract speaks of a value through its model, a tree
//! of plain data.

use vstd::prelude::*;

use crate::text::decimal;

verus! {

/// What a JSON value holds. A number stands by its text.
pub enum JsonModel {
    Null,
    Bool(bool),
    Number(Seq<char>),
    Text(Seq<char>),
    List(Seq<JsonModel>),
    Object(Map<Seq<char>, JsonModel>),
}

/// The JSON values of `serde_json`.
#[verifier::external_type_specification]
#[verifier::external_body]
pub struct ExValue(serde_json::Value);

/// The objects of `serde_json`: maps from keys to JSON values.
#[verifier::external_type_specification]
#[verifier::external_body]
#[verifier::reject_recursive_types(K)]
#[verifier::reject_recursive_types(V)]
pub struct ExFields<K, V>(serde_json::Map<K, V>);

/// The failures of `serde_json`.
#[verifier::external_type_specification]
#[verifier::external_body]
pub struct ExJsonError(serde_json::Error);

/// What a `serde_json` value holds.
pub uninterp spec fn json_model(value: serde_json::Value) -> JsonModel;

/// What a `serde_json` object holds under each of its keys.
pub uninterp spec fn json_fields(
    fields: serde_json::Map<String, serde_json::Value>,
) -> Map<Seq<char>, JsonModel>;

/// The contents of an object without entries.
pub open spec fn no_entries() -> Map<Seq<char>, JsonModel> {
    Map::empty()
}

/// The compact JSON text of a value, with the keys of every object in ascending order.
pub uninterp spec fn json_text(model: JsonModel) -> Seq<char>;

/// The indented JSON text of a list of values, where the serializer gives one.
pub uninterp spec fn json_list_pretty(models: Seq<JsonModel>) -> Option<Seq<char>>;

/// What each of a sequence of values holds.
pub open spec fn json_models(values: Seq<serde_json::Value>) -> Seq<JsonModel> {
    values.map_values(|v: serde_json::Value| json_model(v))
}

/// `serde_json::Value::Bool` holds a truth value.
#[verifier::external_body]
pub(crate) fn json_bool(b: bool) -> (value: serde_json::Value)
    ensures
        json_model(value) == JsonModel::Bool(b),
{
    serde_json::Value::Bool(b)
}

/// `serde_json::Value::from`, of a `usize`, holds that number.
#[verifier::external_body]
pub(crate) fn json_number(n: usize) -> (value: serde_json::Value)
    ensures
        json_model(value) == JsonModel::Number(decimal(n as nat)),
{
    serde_json::Value::from(n)
}

/// `serde_json::Value::String` holds a text.
#[verifier::external_body]
pub(crate) fn json_string(text: String) -> (value: serde_json::Value)
    ensures
        json_model(value) == JsonModel::Text(text@),
{
    serde_json::Value::String(text)
}

/// `serde_json::Value::Array` holds values in their order.
#[verifier::external_body]
pub(crate) fn json_array(values: Vec<serde_json::Value>) -> (value: serde_json::Value)
    ensures
        json_model(value) == JsonModel::List(json_models(values@)),
{
    serde_json::Value::Array(values)
}

/// `serde_json::Value::Object` holds the entries of an object.
#[verifier::external_body]
pub(crate) fn json_object(fields: serde_json::Map<String, serde_json::Value>) -> (value:
    serde_json::Value)
    ensures
        json_model(value) == JsonModel::Object(json_fields(fields)),
{
    serde_json::Value::Object(fields)
}

/// `serde_json::Map::new` makes an object without entries.
#[verifier::external_body]
pub(crate) fn no_fields() -> (fields: serde_json::Map<String, serde_json::Value>)
    ensures
        json_fields(fields) == no_entries(),
{
    serde_json::Map::new()
}

/// `serde_json::Map::insert` puts a value under a key, in place of an earlier one.
#[verifier::external_body]
pub(crate) fn put_field(
    fields: &mut serde_json::Map<String, serde_json::Value>,
    key: &str,
    value: serde_json::Value,
)
    ensures
        json_fields(*final(fields)) == json_fields(*old(fields)).insert(key@, json_model(value)),
{
    fields.insert(key.to_string(), value);
}

/// `serde_json::Value::to_string` writes the value as compact JSON. The text is a function of
/// what the value holds.
#[verifier::external_body]
pub(crate) fn compact_text(value: &serde_json::Value) -> (text: String)
    ensures
        text@ == json_text(json_model(*value)),
{
    value.to_string()
}

/// `serde_json::to_string_pretty`, of a list of values, writes them as indented JSON. The text
/// is a function of what the values hold, and so is whether there is one.
#[verifier::external_body]
pub(crate) fn pretty_text(values: &Vec<serde_json::Value>) -> (text: Result<
    String,
    serde_json::Error,
>)
    ensures
        match text {
            Ok(t) => json_list_pretty(json_models(values@)) == Some(t@),
            Err(_) => json_list_pretty(json_models(values@)) is None,
        },
{
    serde_json::to_string_pretty(values)
}

/// A text as a JSON value.
pub(crate) fn text_value(text: &str) -> (value: serde_json::Value)
    ensures
        json_model(value) == JsonModel::Text(text@),
{
    json_string(text.to_owned())
}

/// The schema of a value of which only the type is fixed.
pub open spec fn typed(kind: Seq<char>) -> Map<Seq<char>, JsonModel> {
    no_entries().insert("type"@, JsonModel::Text(kind))
}

/// The schema of a value with a type and a description.
pub open spec fn described(kind: Seq<char>, description: Seq<char>) -> Map<Seq<char>, JsonModel> {
    typed(kind).insert("description"@, JsonModel::Text(description))
}

/// The schema of an object: its properties, and the names of those that must be there.
pub open spec fn object_schema(
    properties: Map<Seq<char>, JsonModel>,
    required: Seq<JsonModel>,
) -> JsonModel {
    JsonModel::Object(
        typed("object"@).insert("properties"@, JsonModel::Object(properties)).insert(
            "required"@,
            JsonModel::List(required),
        ),
    )
}

/// The entries of the schema of a value of which only the type is fixed.
pub(crate) fn typed_fields(kind: &str) -> (fields: serde_json::Map<String, serde_json::Value>)
    ensures
        json_fields(fields) == typed(kind@),
{
    let mut fields = no_fields();
    put_field(&mut fields, "type", text_value(kind));
    fields
}

/// The entries of the schema of a value with a type and a description.
pub(crate) fn described_fields(kind: &str, description: &str) -> (fields: serde_json::Map<
    String,
    serde_json::Value,
>)
    ensures
        json_fields(fields) == described(kind@, description@),
{
    let mut fields = typed_fields(kind);
    put_field(&mut fields, "description", text_value(description));
    fields
}

/// The schema of an object.
pub(crate) fn object_schema_value(
    properties: serde_json::Map<String, serde_json::Value>,
    required: Vec<serde_json::Value>,
) -> (value: serde_json::Value)
    ensures
        json_model(value) == object_schema(json_fields(properties), json_models(required@)),
{
    let mut fields = typed_fields("object");
    put_field(&mut fields, "properties", json_object(properties));
    put_field(&mut fields, "required", json_array(required));
    json_object(fields)
}

} // verus!
