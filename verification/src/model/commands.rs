use vstd::prelude::*;
use vstd::string::StringExecFns;
use serde_json::Value;
use uuid::Uuid;
use crate::ident;
use crate::ident::hyphenated;
use crate::ident::uuid_bits;
use crate::json;
use crate::json::Json;
use crate::json::Numeral;
use crate::json::json_model;
use crate::json::member_of;
use crate::json::no_fields;
use crate::json::text_of;

verus! {

/// The greeting that opens a session: how often the server probes, in
/// seconds, and the session's identifier.
#[derive(Clone, Debug, PartialEq)]
pub struct Hello {
    pub heartbeat: u64,
    pub session_id: Uuid,
}

/// What a client identifies itself with.
#[derive(Clone, Debug, PartialEq)]
pub struct Identify {
    pub token: String,
}

#[derive(Clone, Debug, PartialEq)]
pub struct SubscribeToGuild {
    pub subscribe_to: String,
}

#[derive(Clone, Debug, PartialEq)]
pub struct RequestGuildData {
    pub guild_id: String,
}

#[derive(Clone, Debug, PartialEq)]
pub struct SubscriptionAck {
    pub subscribed: bool,
    pub guild_id: Option<String>,
}

/// The document of a greeting: an object with the members `heartbeat`, a
/// number, and `session_id`, the identifier's hyphenated text.
pub open spec fn hello_document(heartbeat: u64, id_bits: u128) -> Json {
    Json::Object(
        no_fields().insert("heartbeat"@, Json::Number(Numeral::Unsigned(heartbeat))).insert(
            "session_id"@,
            Json::Text(hyphenated(id_bits)),
        ),
    )
}

/// The token that a document identifies with: its member `token`, where
/// that is a string.
pub open spec fn token_of(doc: Json) -> Option<Seq<char>> {
    match member_of(doc, "token"@) {
        Some(token) => text_of(token),
        None => None,
    }
}

impl Hello {
    /// The greeting as a JSON document.
    pub fn to_value(&self) -> (value: Value)
        ensures
            json_model(value) == hello_document(self.heartbeat, uuid_bits(self.session_id)),
    {
        let mut members = json::object_new();
        json::object_insert(&mut members, String::from_str("heartbeat"), json::from_natural(self.heartbeat));
        let id = ident::to_text(&self.session_id);
        json::object_insert(&mut members, String::from_str("session_id"), json::from_text(id.as_str()));
        json::from_object(members)
    }
}

impl Identify {
    /// Reads an identification out of a JSON document: there is one
    /// exactly when the document is an object whose member `token` is a
    /// string, and that string is its token.
    pub fn from_value(value: &Value) -> (read: Option<Identify>)
        ensures
            match read {
                Some(identify) => token_of(json_model(*value)) == Some(identify.token@),
                None => token_of(json_model(*value)) is None,
            },
    {
        match json::member(value, "token") {
            Some(token) => match json::as_text(token) {
                Some(text) => Some(Identify { token: String::from_str(text) }),
                None => None,
            },
            None => None,
        }
    }
}

} // verus!
