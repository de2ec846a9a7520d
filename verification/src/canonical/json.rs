//! Structured documents: the form in which a payload is handed to the
//! canonical writer and to the transport.

use vstd::prelude::*;
use vstd::string::*;

verus! {

/// A named member of an object.
#[derive(Debug, PartialEq)]
pub struct JsonField {
    pub name: String,
    pub value: JsonValue,
}

/// A structured document.
#[derive(Debug, PartialEq)]
pub enum JsonValue {
    Null,
    Bool(bool),
    Integer(i64),
    Text(String),
    List(Vec<JsonValue>),
    /// The members of an object, in the order in which they were given.
    Object(Vec<JsonField>),
}

/// What a structured document says: its texts as sequences of characters,
/// its lists and objects as sequences.
pub enum JsonModel {
    Null,
    Bool(bool),
    Integer(int),
    Text(Seq<char>),
    List(Seq<JsonModel>),
    Object(Seq<MemberModel>),
}

/// What a member of an object says: its name and its value.
pub struct MemberModel {
    pub name: Seq<char>,
    pub value: JsonModel,
}

impl View for JsonValue {
    type V = JsonModel;

    open spec fn view(&self) -> JsonModel
        decreases self,
    {
        match self {
            JsonValue::Null => JsonModel::Null,
            JsonValue::Bool(b) => JsonModel::Bool(*b),
            JsonValue::Integer(i) => JsonModel::Integer(*i as int),
            JsonValue::Text(s) => JsonModel::Text(s@),
            JsonValue::List(items) => JsonModel::List(
                Seq::new(
                    items.len() as nat,
                    |i: int|
                        if 0 <= i < items.len() {
                            items[i].view()
                        } else {
                            JsonModel::Null
                        },
                ),
            ),
            JsonValue::Object(fields) => JsonModel::Object(
                Seq::new(
                    fields.len() as nat,
                    |i: int|
                        if 0 <= i < fields.len() {
                            MemberModel { name: fields[i].name@, value: fields[i].value.view() }
                        } else {
                            MemberModel { name: Seq::empty(), value: JsonModel::Null }
                        },
                ),
            ),
        }
    }
}

/// What the items of a list say.
pub open spec fn model_items(items: Seq<JsonValue>) -> Seq<JsonModel> {
    Seq::new(items.len(), |i: int| items[i]@)
}

/// What the members of an object say.
pub open spec fn model_fields(fields: Seq<JsonField>) -> Seq<MemberModel> {
    Seq::new(fields.len(), |i: int| MemberModel { name: fields[i].name@, value: fields[i].value@ })
}

/// A list says what its items say, and an object what its members say.
pub proof fn lemma_view_of_parts(value: JsonValue)
    ensures
        value matches JsonValue::List(items) ==> value@ == JsonModel::List(model_items(items@)),
        value matches JsonValue::Object(fields) ==> value@ == JsonModel::Object(
            model_fields(fields@),
        ),
{
    match value {
        JsonValue::List(items) => {
            assert(value@->List_0 =~= model_items(items@));
        },
        JsonValue::Object(fields) => {
            assert(value@->Object_0 =~= model_fields(fields@));
        },
        _ => {},
    }
}

impl JsonValue {
    /// The text `s` as a document.
    pub fn text(s: &str) -> (r: JsonValue)
        ensures
            r@ == JsonModel::Text(s@),
    {
        JsonValue::Text(String::from_str(s))
    }

    /// The text `s` as a document, or the null document where there is none.
    pub fn optional_text(s: &Option<String>) -> (r: JsonValue)
        ensures
            r@ == match s {
                Some(s) => JsonModel::Text(s@),
                None => JsonModel::Null,
            },
    {
        match s {
            Some(s) => JsonValue::Text(s.clone()),
            None => JsonValue::Null,
        }
    }
}

impl JsonValue {
    /// The object with the members `fields`.
    pub fn object(fields: Vec<JsonField>) -> (r: JsonValue)
        ensures
            r@ == JsonModel::Object(model_fields(fields@)),
    {
        let r = JsonValue::Object(fields);
        proof {
            lemma_view_of_parts(r);
        }
        r
    }

    /// The list with the items `items`.
    pub fn list(items: Vec<JsonValue>) -> (r: JsonValue)
        ensures
            r@ == JsonModel::List(model_items(items@)),
    {
        let r = JsonValue::List(items);
        proof {
            lemma_view_of_parts(r);
        }
        r
    }
}

impl JsonField {
    /// The member named `name` with the value `value`.
    pub fn new(name: &str, value: JsonValue) -> (r: JsonField)
        ensures
            r.name@ == name@,
            r.value == value,
    {
        JsonField { name: String::from_str(name), value }
    }
}

} // verus!
