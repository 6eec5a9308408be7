//! The shapes that a command's result must have: how a decoded payload is read
//! into a record, and what counts as a mismatch.

use crate::json::{Json, JsonValue};
use crate::text::chain;
use vstd::prelude::*;

verus! {

/// Why a payload does not have the expected shape.
#[derive(Debug, PartialEq, Eq)]
pub enum SchemaError {
    /// The payload is no object.
    NotAnObject,
    /// A member that must be there is missing.
    MissingField { field: String },
    /// A member is there and holds a value of the wrong kind.
    WrongType { field: String },
}

/// What a [`SchemaError`] holds.
pub enum Mismatch {
    NotAnObject,
    MissingField { field: Seq<char> },
    WrongType { field: Seq<char> },
}

impl View for SchemaError {
    type V = Mismatch;

    open spec fn view(&self) -> Mismatch {
        match self {
            SchemaError::NotAnObject => Mismatch::NotAnObject,
            SchemaError::MissingField { field } => Mismatch::MissingField { field: field@ },
            SchemaError::WrongType { field } => Mismatch::WrongType { field: field@ },
        }
    }
}

/// The words for a mismatch.
pub open spec fn mismatch_text(mismatch: Mismatch) -> Seq<char> {
    match mismatch {
        Mismatch::NotAnObject => "expected an object"@,
        Mismatch::MissingField { field } => "missing field "@ + field,
        Mismatch::WrongType { field } => "invalid type for field "@ + field,
    }
}

impl SchemaError {
    /// Says in words what does not match.
    pub fn message(&self) -> (r: String)
        ensures
            r@ == mismatch_text(self@),
    {
        match self {
            SchemaError::NotAnObject => "expected an object".to_owned(),
            SchemaError::MissingField { field } => chain("missing field ", field.as_str()),
            SchemaError::WrongType { field } => chain("invalid type for field ", field.as_str()),
        }
    }
}

/// A text member that must be there.
pub open spec fn required_text(value: JsonValue, key: Seq<char>) -> Result<Seq<char>, Mismatch> {
    match value.field(key) {
        Some(JsonValue::Text(s)) => Ok(s),
        Some(_) => Err(Mismatch::WrongType { field: key }),
        None => Err(Mismatch::MissingField { field: key }),
    }
}

/// A text member that is empty where it is missing.
pub open spec fn defaulted_text(value: JsonValue, key: Seq<char>) -> Result<Seq<char>, Mismatch> {
    match value.field(key) {
        Some(JsonValue::Text(s)) => Ok(s),
        Some(_) => Err(Mismatch::WrongType { field: key }),
        None => Ok(Seq::empty()),
    }
}

/// A text member that may be missing or null.
pub open spec fn optional_text(value: JsonValue, key: Seq<char>) -> Result<
    Option<Seq<char>>,
    Mismatch,
> {
    match value.field(key) {
        Some(JsonValue::Text(s)) => Ok(Some(s)),
        Some(JsonValue::Null) => Ok(None),
        Some(_) => Err(Mismatch::WrongType { field: key }),
        None => Ok(None),
    }
}

/// Every item is a text value.
pub open spec fn all_text(items: Seq<JsonValue>) -> bool {
    forall|i: int| 0 <= i < items.len() ==> (#[trigger] items[i]) is Text
}

/// The texts that a sequence of text values holds.
pub open spec fn texts_of(items: Seq<JsonValue>) -> Seq<Seq<char>> {
    Seq::new(items.len(), |i: int| items[i]->Text_0)
}

/// A member that is a list of texts, and empty where it is missing.
pub open spec fn text_list(value: JsonValue, key: Seq<char>) -> Result<
    Seq<Seq<char>>,
    Mismatch,
> {
    match value.field(key) {
        Some(JsonValue::Array(items)) => if all_text(items) {
            Ok(texts_of(items))
        } else {
            Err(Mismatch::WrongType { field: key })
        },
        Some(_) => Err(Mismatch::WrongType { field: key }),
        None => Ok(Seq::empty()),
    }
}

/// A member of any kind that must be there.
pub open spec fn required_value(value: JsonValue, key: Seq<char>) -> Result<JsonValue, Mismatch> {
    match value.field(key) {
        Some(v) => Ok(v),
        None => Err(Mismatch::MissingField { field: key }),
    }
}

/// A member of any kind that may be missing or null.
pub open spec fn optional_value(value: JsonValue, key: Seq<char>) -> Option<JsonValue> {
    match value.field(key) {
        Some(JsonValue::Null) => None,
        Some(v) => Some(v),
        None => None,
    }
}

/// The texts of a list of strings.
pub open spec fn views_of(items: Seq<String>) -> Seq<Seq<char>> {
    Seq::new(items.len(), |i: int| items[i]@)
}

/// Reads a text member that must be there.
pub fn read_required_text(value: &Json, key: &str) -> (r: Result<String, SchemaError>)
    ensures
        match r {
            Ok(s) => required_text(value@, key@) == Ok::<Seq<char>, Mismatch>(s@),
            Err(e) => required_text(value@, key@) == Err::<Seq<char>, Mismatch>(e@),
        },
{
    match value.get(key) {
        Some(Json::Text(s)) => Ok(s.clone()),
        Some(_) => Err(SchemaError::WrongType { field: key.to_owned() }),
        None => Err(SchemaError::MissingField { field: key.to_owned() }),
    }
}

/// Reads a text member that is empty where it is missing.
pub fn read_defaulted_text(value: &Json, key: &str) -> (r: Result<String, SchemaError>)
    ensures
        match r {
            Ok(s) => defaulted_text(value@, key@) == Ok::<Seq<char>, Mismatch>(s@),
            Err(e) => defaulted_text(value@, key@) == Err::<Seq<char>, Mismatch>(e@),
        },
{
    match value.get(key) {
        Some(Json::Text(s)) => Ok(s.clone()),
        Some(_) => Err(SchemaError::WrongType { field: key.to_owned() }),
        None => Ok(String::new()),
    }
}

/// Reads a text member that may be missing or null.
pub fn read_optional_text(value: &Json, key: &str) -> (r: Result<Option<String>, SchemaError>)
    ensures
        match r {
            Ok(Some(s)) => optional_text(value@, key@) == Ok::<Option<Seq<char>>, Mismatch>(
                Some(s@),
            ),
            Ok(None) => optional_text(value@, key@) == Ok::<Option<Seq<char>>, Mismatch>(None),
            Err(e) => optional_text(value@, key@) == Err::<Option<Seq<char>>, Mismatch>(e@),
        },
{
    match value.get(key) {
        Some(Json::Text(s)) => Ok(Some(s.clone())),
        Some(Json::Null) => Ok(None),
        Some(_) => Err(SchemaError::WrongType { field: key.to_owned() }),
        None => Ok(None),
    }
}

/// Reads a member that is a list of texts, and empty where it is missing.
pub fn read_text_list(value: &Json, key: &str) -> (r: Result<Vec<String>, SchemaError>)
    ensures
        match r {
            Ok(list) => text_list(value@, key@) == Ok::<Seq<Seq<char>>, Mismatch>(views_of(list@)),
            Err(e) => text_list(value@, key@) == Err::<Seq<Seq<char>>, Mismatch>(e@),
        },
{
    match value.get(key) {
        Some(Json::Array(items)) => {
            let ghost held = value@.field(key@)->0->Array_0;
            let mut out: Vec<String> = Vec::new();
            let mut i: usize = 0;
            while i < items.len()
                invariant
                    i <= items.len(),
                    out.len() == i,
                    held.len() == items.len(),
                    value@.field(key@) == Some(JsonValue::Array(held)),
                    forall|k: int| 0 <= k < held.len() ==> held[k] == (#[trigger] items@[k])@,
                    forall|k: int| 0 <= k < i ==> (#[trigger] held[k]) is Text,
                    forall|k: int| 0 <= k < i ==> (#[trigger] out@[k])@ == held[k]->Text_0,
                decreases items.len() - i,
            {
                match &items[i] {
                    Json::Text(s) => {
                        out.push(s.clone());
                    },
                    _ => {
                        return Err(SchemaError::WrongType { field: key.to_owned() });
                    },
                }
                i = i + 1;
            }
            proof {
                assert(views_of(out@) =~= texts_of(held));
            }
            Ok(out)
        },
        Some(_) => Err(SchemaError::WrongType { field: key.to_owned() }),
        None => {
            let out: Vec<String> = Vec::new();
            proof {
                assert(views_of(out@) =~= Seq::<Seq<char>>::empty());
            }
            Ok(out)
        },
    }
}

/// Reads a member of any kind that must be there.
pub fn read_required_value(value: &Json, key: &str) -> (r: Result<Json, SchemaError>)
    ensures
        match r {
            Ok(v) => required_value(value@, key@) == Ok::<JsonValue, Mismatch>(v@),
            Err(e) => required_value(value@, key@) == Err::<JsonValue, Mismatch>(e@),
        },
{
    match value.get(key) {
        Some(v) => Ok(v.clone()),
        None => Err(SchemaError::MissingField { field: key.to_owned() }),
    }
}

/// Reads a member of any kind that may be missing or null.
pub fn read_optional_value(value: &Json, key: &str) -> (r: Option<Json>)
    ensures
        match r {
            Some(v) => optional_value(value@, key@) == Some(v@),
            None => optional_value(value@, key@) is None,
        },
{
    match value.get(key) {
        Some(Json::Null) => None,
        Some(v) => Some(v.clone()),
        None => None,
    }
}

} // verus!
