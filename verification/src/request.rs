//! The request of one call and its wire form.

use crate::outside::{encode_text, json_encode};
use crate::json::{Json, JsonValue};
use vstd::prelude::*;

verus! {

/// What the worker is asked to do: a command name and its payload.
#[derive(Debug, PartialEq, Eq)]
pub struct Request {
    pub command: String,
    pub payload: Json,
}

/// What a [`Request`] holds.
pub struct RequestValue {
    pub command: Seq<char>,
    pub payload: JsonValue,
}

impl View for Request {
    type V = RequestValue;

    open spec fn view(&self) -> RequestValue {
        RequestValue { command: self.command@, payload: self.payload@ }
    }
}

/// The value that goes over the wire for a request: an object with the command
/// name under `cmd` and the payload under `payload`.
pub open spec fn wire_value(request: RequestValue) -> JsonValue {
    JsonValue::Object(
        seq![("cmd"@, JsonValue::Text(request.command)), ("payload"@, request.payload)],
    )
}

/// An object with the one member `key`, a text.
pub open spec fn single_text(key: Seq<char>, text: Seq<char>) -> JsonValue {
    JsonValue::Object(seq![(key, JsonValue::Text(text))])
}

impl Request {
    /// A request whose payload is an object with one text member.
    pub fn with_text(command: &str, key: &str, text: String) -> (r: Request)
        ensures
            r@ == (RequestValue { command: command@, payload: single_text(key@, text@) }),
    {
        let entries = vec![(key.to_owned(), Json::Text(text))];
        proof {
            assert(entries@[0].1@ == JsonValue::Text(text@));
        }
        let payload = Json::Object(entries);
        proof {
            assert(payload@->Object_0 =~= seq![(key@, JsonValue::Text(text@))]);
        }
        Request { command: command.to_owned(), payload }
    }

    /// The text to write to the worker's input: the wire value of the request,
    /// encoded. `None` where the payload cannot be encoded.
    pub fn encode(&self) -> (r: Option<String>)
        ensures
            match r {
                Some(text) => json_encode(wire_value(self@)) == Some(text@),
                None => json_encode(wire_value(self@)) is None,
            },
    {
        let entries = vec![
            ("cmd".to_owned(), Json::Text(self.command.clone())),
            ("payload".to_owned(), self.payload.clone()),
        ];
        proof {
            assert(entries@[0].1@ == JsonValue::Text(self.command@));
        }
        let wire = Json::Object(entries);
        proof {
            assert(wire@->Object_0 =~= wire_value(self@)->Object_0);
        }
        encode_text(&wire)
    }
}

} // verus!
