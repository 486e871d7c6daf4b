//! JSON documents as plain values, read from text by `serde_json`.

use vstd::prelude::*;

verus! {

/// Mathematical value of a [`JsonValue`].
pub enum JsonModel {
    Null,
    Bool(bool),
    Number(Seq<char>),
    Text(Seq<char>),
    Array(Seq<JsonModel>),
    Object(Seq<(Seq<char>, JsonModel)>),
}

/// A JSON document.
///
/// A number is kept as the text that the reader displays for it. An object
/// is kept as its members, name and value, in the order in which the reader
/// hands them out.
#[derive(Debug)]
pub enum JsonValue {
    Null,
    Bool(bool),
    Number(String),
    Text(String),
    Array(Vec<JsonValue>),
    Object(Vec<(String, JsonValue)>),
}

/// The value of a document: each text by its characters, each nested
/// document by its own value.
pub open spec fn json_model(v: JsonValue) -> JsonModel
    decreases v,
{
    match v {
        JsonValue::Null => JsonModel::Null,
        JsonValue::Bool(b) => JsonModel::Bool(b),
        JsonValue::Number(n) => JsonModel::Number(n@),
        JsonValue::Text(t) => JsonModel::Text(t@),
        JsonValue::Array(items) => JsonModel::Array(
            Seq::new(
                items.len() as nat,
                |i: int|
                    if 0 <= i < items.len() {
                        json_model(items[i])
                    } else {
                        arbitrary()
                    },
            ),
        ),
        JsonValue::Object(members) => JsonModel::Object(
            Seq::new(
                members.len() as nat,
                |i: int|
                    if 0 <= i < members.len() {
                        (members[i].0@, json_model(members[i].1))
                    } else {
                        arbitrary()
                    },
            ),
        ),
    }
}

impl View for JsonValue {
    type V = JsonModel;

    open spec fn view(&self) -> JsonModel {
        json_model(*self)
    }
}

/// Views of the items of an array, in order.
pub open spec fn item_models(items: Vec<JsonValue>) -> Seq<JsonModel> {
    Seq::new(items.len() as nat, |i: int| items[i]@)
}

/// Views of the members of an object, in order.
pub open spec fn member_models(members: Vec<(String, JsonValue)>) -> Seq<(Seq<char>, JsonModel)> {
    Seq::new(members.len() as nat, |i: int| (members[i].0@, members[i].1@))
}

/// The view of an array is the views of its items.
pub proof fn lemma_array_view(items: Vec<JsonValue>)
    ensures
        JsonValue::Array(items)@ == JsonModel::Array(item_models(items)),
{
    reveal_with_fuel(json_model, 2);
    assert(JsonValue::Array(items)@->Array_0 =~= item_models(items));
}

/// The view of an object is the views of its members.
pub proof fn lemma_object_view(members: Vec<(String, JsonValue)>)
    ensures
        JsonValue::Object(members)@ == JsonModel::Object(member_models(members)),
{
    reveal_with_fuel(json_model, 2);
    assert(JsonValue::Object(members)@->Object_0 =~= member_models(members));
}

/// A document as `serde_json` holds it. Nothing of it is visible here but
/// through [`tree_model`].
#[verifier::external_type_specification]
#[verifier::external_body]
pub struct ExTree(serde_json::Value);

/// The reason `serde_json` gives for refusing a text. Nothing of it is
/// visible here but through [`fault_text`].
#[verifier::external_type_specification]
#[verifier::external_body]
pub struct ExFault(serde_json::Error);

/// What `serde_json::from_str` makes of a text, read as a
/// `serde_json::Value`: the document, or the message of its error.
pub uninterp spec fn json_reading(text: Seq<char>) -> Result<JsonModel, Seq<char>>;

/// The document that a `serde_json::Value` holds.
pub uninterp spec fn tree_model(tree: serde_json::Value) -> JsonModel;

/// The message that a `serde_json::Error` displays.
pub uninterp spec fn fault_text(fault: serde_json::Error) -> Seq<char>;

/// View of the outcome of reading a text.
pub open spec fn reading_model(r: Result<JsonValue, String>) -> Result<JsonModel, Seq<char>> {
    match r {
        Ok(v) => Ok(v@),
        Err(m) => Err(m@),
    }
}

/// Calls `serde_json::from_str` for a `serde_json::Value`. The contract only
/// gives the outcome its name: the reading of the text is the document that
/// the returned value holds, or the message of the returned error.
#[verifier::external_body]
fn tree_from_str(text: &str) -> (r: Result<serde_json::Value, serde_json::Error>)
    ensures
        match r {
            Ok(tree) => json_reading(text@) == Ok::<JsonModel, Seq<char>>(tree_model(tree)),
            Err(fault) => json_reading(text@) == Err::<JsonModel, Seq<char>>(fault_text(fault)),
        },
{
    serde_json::from_str::<serde_json::Value>(text)
}

/// Copies a `serde_json::Value` into a [`JsonValue`], variant by variant: a
/// number becomes the text that `serde_json` displays for it, an object its
/// members in the order of `serde_json::Map::iter`.
#[verifier::external_body]
fn value_from_tree(tree: &serde_json::Value) -> (r: JsonValue)
    ensures
        r@ == tree_model(*tree),
{
    match tree {
        serde_json::Value::Null => JsonValue::Null,
        serde_json::Value::Bool(b) => JsonValue::Bool(*b),
        serde_json::Value::Number(n) => JsonValue::Number(n.to_string()),
        serde_json::Value::String(s) => JsonValue::Text(s.clone()),
        serde_json::Value::Array(a) => JsonValue::Array(a.iter().map(value_from_tree).collect()),
        serde_json::Value::Object(m) => JsonValue::Object(
            m.iter().map(|(k, v)| (k.clone(), value_from_tree(v))).collect(),
        ),
    }
}

/// Calls `to_string` on a `serde_json::Error`, which formats it with its
/// `Display` impl.
#[verifier::external_body]
fn message_of_fault(fault: &serde_json::Error) -> (r: String)
    ensures
        r@ == fault_text(*fault),
{
    fault.to_string()
}

/// Reads a JSON document from text.
pub fn parse_json(text: &str) -> (r: Result<JsonValue, String>)
    ensures
        reading_model(r) == json_reading(text@),
{
    match tree_from_str(text) {
        Ok(tree) => Ok(value_from_tree(&tree)),
        Err(fault) => Err(message_of_fault(&fault)),
    }
}

} // verus!
