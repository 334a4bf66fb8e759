use vstd::prelude::*;
use vstd::string::StringExecFns;
use serde_json::Value;
use crate::json;
use crate::json::Json;
use crate::json::Numeral;
use crate::json::no_fields;
use crate::json::json_model;
use crate::json::json_parsed;
use crate::json::json_text;
use crate::json::member_of;
use crate::json::natural_of;
use crate::json::text_of;
use crate::utils::error::WSError;

verus! {

/// What an envelope is for. The numbers that stand for the codes on the
/// wire are fixed: see `opcode_number`.
#[derive(Clone, Copy, Debug, PartialEq, Eq, Structural)]
pub enum OpCode {
    Dispatch,
    Hello,
    Identify,
    Reconnect,
    GuildSubscribe,
    GuildUnsubscribe,
    SubscriptionAck,
    GuildRequest,
}

/// The number of each op code on the wire.
pub open spec fn opcode_number(op: OpCode) -> u8 {
    match op {
        OpCode::Dispatch => 0,
        OpCode::Hello => 1,
        OpCode::Identify => 2,
        OpCode::Reconnect => 3,
        OpCode::GuildSubscribe => 4,
        OpCode::GuildUnsubscribe => 5,
        OpCode::SubscriptionAck => 6,
        OpCode::GuildRequest => 7,
    }
}

/// The op code that a number stands for, where it stands for one.
pub open spec fn opcode_of(number: u64) -> Option<OpCode> {
    if number == 0 {
        Some(OpCode::Dispatch)
    } else if number == 1 {
        Some(OpCode::Hello)
    } else if number == 2 {
        Some(OpCode::Identify)
    } else if number == 3 {
        Some(OpCode::Reconnect)
    } else if number == 4 {
        Some(OpCode::GuildSubscribe)
    } else if number == 5 {
        Some(OpCode::GuildUnsubscribe)
    } else if number == 6 {
        Some(OpCode::SubscriptionAck)
    } else if number == 7 {
        Some(OpCode::GuildRequest)
    } else {
        None
    }
}

/// The digits of an op code's number as they stand in an envelope's text.
pub open spec fn opcode_digits(op: OpCode) -> Seq<char> {
    match op {
        OpCode::Dispatch => "0"@,
        OpCode::Hello => "1"@,
        OpCode::Identify => "2"@,
        OpCode::Reconnect => "3"@,
        OpCode::GuildSubscribe => "4"@,
        OpCode::GuildUnsubscribe => "5"@,
        OpCode::SubscriptionAck => "6"@,
        OpCode::GuildRequest => "7"@,
    }
}

impl OpCode {
    /// The number that stands for this code on the wire.
    pub fn as_u8(&self) -> (number: u8)
        ensures
            number == opcode_number(*self),
    {
        match self {
            OpCode::Dispatch => 0,
            OpCode::Hello => 1,
            OpCode::Identify => 2,
            OpCode::Reconnect => 3,
            OpCode::GuildSubscribe => 4,
            OpCode::GuildUnsubscribe => 5,
            OpCode::SubscriptionAck => 6,
            OpCode::GuildRequest => 7,
        }
    }

    /// The code that a number of the wire stands for; none for a number
    /// outside the table.
    pub fn from_u64(number: u64) -> (op: Option<OpCode>)
        ensures
            op == opcode_of(number),
    {
        match number {
            0 => Some(OpCode::Dispatch),
            1 => Some(OpCode::Hello),
            2 => Some(OpCode::Identify),
            3 => Some(OpCode::Reconnect),
            4 => Some(OpCode::GuildSubscribe),
            5 => Some(OpCode::GuildUnsubscribe),
            6 => Some(OpCode::SubscriptionAck),
            7 => Some(OpCode::GuildRequest),
            _ => None,
        }
    }

    /// The number of this code in decimal digits.
    pub fn digits(&self) -> (text: &'static str)
        ensures
            text@ == opcode_digits(*self),
    {
        match self {
            OpCode::Dispatch => "0",
            OpCode::Hello => "1",
            OpCode::Identify => "2",
            OpCode::Reconnect => "3",
            OpCode::GuildSubscribe => "4",
            OpCode::GuildUnsubscribe => "5",
            OpCode::SubscriptionAck => "6",
            OpCode::GuildRequest => "7",
        }
    }
}

/// Each op code is found again from its number, the numbers of the table
/// are 0 to 7, and a number stands for at most the code whose number it is.
pub proof fn opcode_round_trip(op: OpCode, number: u64)
    ensures
        opcode_of(opcode_number(op) as u64) == Some(op),
        number <= 7 <==> opcode_of(number) is Some,
        opcode_of(number) matches Some(found) ==> opcode_number(found) == number,
{
}

/// The events that the gateway dispatches.
#[derive(Clone, Copy, Debug, PartialEq, Eq, Structural)]
pub enum EventName {
    Ready,
    GuildAccessReceived,
    GuildAccessRevoked,
    GuildDelete,
    GuildChannelCreate,
    GuildChannelUpdate,
    GuildChannelDelete,
    GuildRoleCreate,
    GuildRoleUpdate,
    GuildRoleDelete,
    GuildData,
    GuildUpdate,
    PartialGuildUpdate,
}

/// The name of each event on the wire.
pub open spec fn event_text(event: EventName) -> Seq<char> {
    match event {
        EventName::Ready => "READY"@,
        EventName::GuildAccessReceived => "GUILD_ACCESS_RECEIVED"@,
        EventName::GuildAccessRevoked => "GUILD_ACCESS_REVOKED"@,
        EventName::GuildDelete => "GUILD_DELETE"@,
        EventName::GuildChannelCreate => "GUILD_CHANNEL_CREATE"@,
        EventName::GuildChannelUpdate => "GUILD_CHANNEL_UPDATE"@,
        EventName::GuildChannelDelete => "GUILD_CHANNEL_DELETE"@,
        EventName::GuildRoleCreate => "GUILD_ROLE_CREATE"@,
        EventName::GuildRoleUpdate => "GUILD_ROLE_UPDATE"@,
        EventName::GuildRoleDelete => "GUILD_ROLE_DELETE"@,
        EventName::GuildData => "GUILD_DATA"@,
        EventName::GuildUpdate => "GUILD_UPDATE"@,
        EventName::PartialGuildUpdate => "PARTIAL_GUILD_UPDATE"@,
    }
}

/// The event that a name of the wire stands for, where it stands for one.
pub open spec fn event_of(name: Seq<char>) -> Option<EventName> {
    if name == "READY"@ {
        Some(EventName::Ready)
    } else if name == "GUILD_ACCESS_RECEIVED"@ {
        Some(EventName::GuildAccessReceived)
    } else if name == "GUILD_ACCESS_REVOKED"@ {
        Some(EventName::GuildAccessRevoked)
    } else if name == "GUILD_DELETE"@ {
        Some(EventName::GuildDelete)
    } else if name == "GUILD_CHANNEL_CREATE"@ {
        Some(EventName::GuildChannelCreate)
    } else if name == "GUILD_CHANNEL_UPDATE"@ {
        Some(EventName::GuildChannelUpdate)
    } else if name == "GUILD_CHANNEL_DELETE"@ {
        Some(EventName::GuildChannelDelete)
    } else if name == "GUILD_ROLE_CREATE"@ {
        Some(EventName::GuildRoleCreate)
    } else if name == "GUILD_ROLE_UPDATE"@ {
        Some(EventName::GuildRoleUpdate)
    } else if name == "GUILD_ROLE_DELETE"@ {
        Some(EventName::GuildRoleDelete)
    } else if name == "GUILD_DATA"@ {
        Some(EventName::GuildData)
    } else if name == "GUILD_UPDATE"@ {
        Some(EventName::GuildUpdate)
    } else if name == "PARTIAL_GUILD_UPDATE"@ {
        Some(EventName::PartialGuildUpdate)
    } else {
        None
    }
}

impl EventName {
    /// The name of this event on the wire.
    pub fn as_str(&self) -> (name: &'static str)
        ensures
            name@ == event_text(*self),
    {
        match self {
            EventName::Ready => "READY",
            EventName::GuildAccessReceived => "GUILD_ACCESS_RECEIVED",
            EventName::GuildAccessRevoked => "GUILD_ACCESS_REVOKED",
            EventName::GuildDelete => "GUILD_DELETE",
            EventName::GuildChannelCreate => "GUILD_CHANNEL_CREATE",
            EventName::GuildChannelUpdate => "GUILD_CHANNEL_UPDATE",
            EventName::GuildChannelDelete => "GUILD_CHANNEL_DELETE",
            EventName::GuildRoleCreate => "GUILD_ROLE_CREATE",
            EventName::GuildRoleUpdate => "GUILD_ROLE_UPDATE",
            EventName::GuildRoleDelete => "GUILD_ROLE_DELETE",
            EventName::GuildData => "GUILD_DATA",
            EventName::GuildUpdate => "GUILD_UPDATE",
            EventName::PartialGuildUpdate => "PARTIAL_GUILD_UPDATE",
        }
    }

    /// The event that a name of the wire stands for; none for any other
    /// text.
    pub fn from_name(name: &str) -> (event: Option<EventName>)
        ensures
            event == event_of(name@),
    {
        if same_text(name, "READY") {
            Some(EventName::Ready)
        } else if same_text(name, "GUILD_ACCESS_RECEIVED") {
            Some(EventName::GuildAccessReceived)
        } else if same_text(name, "GUILD_ACCESS_REVOKED") {
            Some(EventName::GuildAccessRevoked)
        } else if same_text(name, "GUILD_DELETE") {
            Some(EventName::GuildDelete)
        } else if same_text(name, "GUILD_CHANNEL_CREATE") {
            Some(EventName::GuildChannelCreate)
        } else if same_text(name, "GUILD_CHANNEL_UPDATE") {
            Some(EventName::GuildChannelUpdate)
        } else if same_text(name, "GUILD_CHANNEL_DELETE") {
            Some(EventName::GuildChannelDelete)
        } else if same_text(name, "GUILD_ROLE_CREATE") {
            Some(EventName::GuildRoleCreate)
        } else if same_text(name, "GUILD_ROLE_UPDATE") {
            Some(EventName::GuildRoleUpdate)
        } else if same_text(name, "GUILD_ROLE_DELETE") {
            Some(EventName::GuildRoleDelete)
        } else if same_text(name, "GUILD_DATA") {
            Some(EventName::GuildData)
        } else if same_text(name, "GUILD_UPDATE") {
            Some(EventName::GuildUpdate)
        } else if same_text(name, "PARTIAL_GUILD_UPDATE") {
            Some(EventName::PartialGuildUpdate)
        } else {
            None
        }
    }
}

/// Each event is found again from its name, and a text stands for at most
/// the event whose name it is.
pub proof fn event_round_trip(event: EventName, name: Seq<char>)
    ensures
        event_of(event_text(event)) == Some(event),
        event_of(name) matches Some(found) ==> event_text(found) == name,
{
    reveal_strlit("READY");
    reveal_strlit("GUILD_ACCESS_RECEIVED");
    reveal_strlit("GUILD_ACCESS_REVOKED");
    reveal_strlit("GUILD_DELETE");
    reveal_strlit("GUILD_CHANNEL_CREATE");
    reveal_strlit("GUILD_CHANNEL_UPDATE");
    reveal_strlit("GUILD_CHANNEL_DELETE");
    reveal_strlit("GUILD_ROLE_CREATE");
    reveal_strlit("GUILD_ROLE_UPDATE");
    reveal_strlit("GUILD_ROLE_DELETE");
    reveal_strlit("GUILD_DATA");
    reveal_strlit("GUILD_UPDATE");
    reveal_strlit("PARTIAL_GUILD_UPDATE");
    match event {
        EventName::Ready => {
        },
        EventName::GuildAccessReceived => {
            assert("READY"@.len() != "GUILD_ACCESS_RECEIVED"@.len());
        },
        EventName::GuildAccessRevoked => {
            assert("READY"@.len() != "GUILD_ACCESS_REVOKED"@.len());
            assert("GUILD_ACCESS_RECEIVED"@.len() != "GUILD_ACCESS_REVOKED"@.len());
        },
        EventName::GuildDelete => {
            assert("READY"@.len() != "GUILD_DELETE"@.len());
            assert("GUILD_ACCESS_RECEIVED"@.len() != "GUILD_DELETE"@.len());
            assert("GUILD_ACCESS_REVOKED"@.len() != "GUILD_DELETE"@.len());
        },
        EventName::GuildChannelCreate => {
            assert("READY"@.len() != "GUILD_CHANNEL_CREATE"@.len());
            assert("GUILD_ACCESS_RECEIVED"@.len() != "GUILD_CHANNEL_CREATE"@.len());
            assert("GUILD_ACCESS_REVOKED"@[6] != "GUILD_CHANNEL_CREATE"@[6]);
            assert("GUILD_DELETE"@.len() != "GUILD_CHANNEL_CREATE"@.len());
        },
        EventName::GuildChannelUpdate => {
            assert("READY"@.len() != "GUILD_CHANNEL_UPDATE"@.len());
            assert("GUILD_ACCESS_RECEIVED"@.len() != "GUILD_CHANNEL_UPDATE"@.len());
            assert("GUILD_ACCESS_REVOKED"@[6] != "GUILD_CHANNEL_UPDATE"@[6]);
            assert("GUILD_DELETE"@.len() != "GUILD_CHANNEL_UPDATE"@.len());
            assert("GUILD_CHANNEL_CREATE"@[14] != "GUILD_CHANNEL_UPDATE"@[14]);
        },
        EventName::GuildChannelDelete => {
            assert("READY"@.len() != "GUILD_CHANNEL_DELETE"@.len());
            assert("GUILD_ACCESS_RECEIVED"@.len() != "GUILD_CHANNEL_DELETE"@.len());
            assert("GUILD_ACCESS_REVOKED"@[6] != "GUILD_CHANNEL_DELETE"@[6]);
            assert("GUILD_DELETE"@.len() != "GUILD_CHANNEL_DELETE"@.len());
            assert("GUILD_CHANNEL_CREATE"@[14] != "GUILD_CHANNEL_DELETE"@[14]);
            assert("GUILD_CHANNEL_UPDATE"@[14] != "GUILD_CHANNEL_DELETE"@[14]);
        },
        EventName::GuildRoleCreate => {
            assert("READY"@.len() != "GUILD_ROLE_CREATE"@.len());
            assert("GUILD_ACCESS_RECEIVED"@.len() != "GUILD_ROLE_CREATE"@.len());
            assert("GUILD_ACCESS_REVOKED"@.len() != "GUILD_ROLE_CREATE"@.len());
            assert("GUILD_DELETE"@.len() != "GUILD_ROLE_CREATE"@.len());
            assert("GUILD_CHANNEL_CREATE"@.len() != "GUILD_ROLE_CREATE"@.len());
            assert("GUILD_CHANNEL_UPDATE"@.len() != "GUILD_ROLE_CREATE"@.len());
            assert("GUILD_CHANNEL_DELETE"@.len() != "GUILD_ROLE_CREATE"@.len());
        },
        EventName::GuildRoleUpdate => {
            assert("READY"@.len() != "GUILD_ROLE_UPDATE"@.len());
            assert("GUILD_ACCESS_RECEIVED"@.len() != "GUILD_ROLE_UPDATE"@.len());
            assert("GUILD_ACCESS_REVOKED"@.len() != "GUILD_ROLE_UPDATE"@.len());
            assert("GUILD_DELETE"@.len() != "GUILD_ROLE_UPDATE"@.len());
            assert("GUILD_CHANNEL_CREATE"@.len() != "GUILD_ROLE_UPDATE"@.len());
            assert("GUILD_CHANNEL_UPDATE"@.len() != "GUILD_ROLE_UPDATE"@.len());
            assert("GUILD_CHANNEL_DELETE"@.len() != "GUILD_ROLE_UPDATE"@.len());
            assert("GUILD_ROLE_CREATE"@[11] != "GUILD_ROLE_UPDATE"@[11]);
        },
        EventName::GuildRoleDelete => {
            assert("READY"@.len() != "GUILD_ROLE_DELETE"@.len());
            assert("GUILD_ACCESS_RECEIVED"@.len() != "GUILD_ROLE_DELETE"@.len());
            assert("GUILD_ACCESS_REVOKED"@.len() != "GUILD_ROLE_DELETE"@.len());
            assert("GUILD_DELETE"@.len() != "GUILD_ROLE_DELETE"@.len());
            assert("GUILD_CHANNEL_CREATE"@.len() != "GUILD_ROLE_DELETE"@.len());
            assert("GUILD_CHANNEL_UPDATE"@.len() != "GUILD_ROLE_DELETE"@.len());
            assert("GUILD_CHANNEL_DELETE"@.len() != "GUILD_ROLE_DELETE"@.len());
            assert("GUILD_ROLE_CREATE"@[11] != "GUILD_ROLE_DELETE"@[11]);
            assert("GUILD_ROLE_UPDATE"@[11] != "GUILD_ROLE_DELETE"@[11]);
        },
        EventName::GuildData => {
            assert("READY"@.len() != "GUILD_DATA"@.len());
            assert("GUILD_ACCESS_RECEIVED"@.len() != "GUILD_DATA"@.len());
            assert("GUILD_ACCESS_REVOKED"@.len() != "GUILD_DATA"@.len());
            assert("GUILD_DELETE"@.len() != "GUILD_DATA"@.len());
            assert("GUILD_CHANNEL_CREATE"@.len() != "GUILD_DATA"@.len());
            assert("GUILD_CHANNEL_UPDATE"@.len() != "GUILD_DATA"@.len());
            assert("GUILD_CHANNEL_DELETE"@.len() != "GUILD_DATA"@.len());
            assert("GUILD_ROLE_CREATE"@.len() != "GUILD_DATA"@.len());
            assert("GUILD_ROLE_UPDATE"@.len() != "GUILD_DATA"@.len());
            assert("GUILD_ROLE_DELETE"@.len() != "GUILD_DATA"@.len());
        },
        EventName::GuildUpdate => {
            assert("READY"@.len() != "GUILD_UPDATE"@.len());
            assert("GUILD_ACCESS_RECEIVED"@.len() != "GUILD_UPDATE"@.len());
            assert("GUILD_ACCESS_REVOKED"@.len() != "GUILD_UPDATE"@.len());
            assert("GUILD_DELETE"@[6] != "GUILD_UPDATE"@[6]);
            assert("GUILD_CHANNEL_CREATE"@.len() != "GUILD_UPDATE"@.len());
            assert("GUILD_CHANNEL_UPDATE"@.len() != "GUILD_UPDATE"@.len());
            assert("GUILD_CHANNEL_DELETE"@.len() != "GUILD_UPDATE"@.len());
            assert("GUILD_ROLE_CREATE"@.len() != "GUILD_UPDATE"@.len());
            assert("GUILD_ROLE_UPDATE"@.len() != "GUILD_UPDATE"@.len());
            assert("GUILD_ROLE_DELETE"@.len() != "GUILD_UPDATE"@.len());
            assert("GUILD_DATA"@.len() != "GUILD_UPDATE"@.len());
        },
        EventName::PartialGuildUpdate => {
            assert("READY"@.len() != "PARTIAL_GUILD_UPDATE"@.len());
            assert("GUILD_ACCESS_RECEIVED"@.len() != "PARTIAL_GUILD_UPDATE"@.len());
            assert("GUILD_ACCESS_REVOKED"@[0] != "PARTIAL_GUILD_UPDATE"@[0]);
            assert("GUILD_DELETE"@.len() != "PARTIAL_GUILD_UPDATE"@.len());
            assert("GUILD_CHANNEL_CREATE"@[0] != "PARTIAL_GUILD_UPDATE"@[0]);
            assert("GUILD_CHANNEL_UPDATE"@[0] != "PARTIAL_GUILD_UPDATE"@[0]);
            assert("GUILD_CHANNEL_DELETE"@[0] != "PARTIAL_GUILD_UPDATE"@[0]);
            assert("GUILD_ROLE_CREATE"@.len() != "PARTIAL_GUILD_UPDATE"@.len());
            assert("GUILD_ROLE_UPDATE"@.len() != "PARTIAL_GUILD_UPDATE"@.len());
            assert("GUILD_ROLE_DELETE"@.len() != "PARTIAL_GUILD_UPDATE"@.len());
            assert("GUILD_DATA"@.len() != "PARTIAL_GUILD_UPDATE"@.len());
            assert("GUILD_UPDATE"@.len() != "PARTIAL_GUILD_UPDATE"@.len());
        },
    }
}

/// Whether two texts are the same.
fn same_text(a: &str, b: &str) -> (same: bool)
    ensures
        same == (a@ == b@),
{
    String::from_str(a) == String::from_str(b)
}

/// The unit that travels over the connection, in both directions.
#[derive(Clone, Debug, PartialEq)]
pub struct Payload {
    pub op: OpCode,
    pub d: Option<Value>,
    pub e: Option<EventName>,
    pub s: Option<String>,
}

/// An envelope as a mathematical value: the op code, the data as a JSON
/// document, the event name and the sequence token.
pub struct Envelope {
    pub op: OpCode,
    pub d: Option<Json>,
    pub e: Option<EventName>,
    pub s: Option<Seq<char>>,
}

impl Envelope {
    /// An envelope names an event exactly when it dispatches one.
    pub open spec fn well_formed(self) -> bool {
        (self.op == OpCode::Dispatch) <==> self.e is Some
    }
}

/// The document that an optional value holds.
pub open spec fn model_of(data: Option<Value>) -> Option<Json> {
    match data {
        Some(value) => Some(json_model(value)),
        None => None,
    }
}

/// The characters of an optional string.
pub open spec fn string_of(text: Option<String>) -> Option<Seq<char>> {
    match text {
        Some(s) => Some(s@),
        None => None,
    }
}

/// The characters of an optional string slice.
pub open spec fn slice_of(text: Option<&str>) -> Option<Seq<char>> {
    match text {
        Some(s) => Some(s@),
        None => None,
    }
}

/// The wire name of an optional event.
pub open spec fn name_of(event: Option<EventName>) -> Option<Seq<char>> {
    match event {
        Some(e) => Some(event_text(e)),
        None => None,
    }
}

impl View for Payload {
    type V = Envelope;

    open spec fn view(&self) -> Envelope {
        Envelope { op: self.op, d: model_of(self.d), e: self.e, s: string_of(self.s) }
    }
}

/// Said of a text that is no JSON document.
pub open spec fn reason_not_json() -> Seq<char> {
    "payload is not valid JSON"@
}

/// Said of an envelope without an op code, or with one outside the table.
pub open spec fn reason_bad_op() -> Seq<char> {
    "missing or unknown op code"@
}

/// Said of an event name that is no string, or none of the table.
pub open spec fn reason_bad_event() -> Seq<char> {
    "unknown event name"@
}

/// Said of a sequence token that is no string.
pub open spec fn reason_bad_sequence() -> Seq<char> {
    "sequence token is not a string"@
}

/// Said of a dispatch without an event name, and of an event name beside
/// any other op code.
pub open spec fn reason_bad_pairing() -> Seq<char> {
    "event name and op code do not go together"@
}

/// The envelope that four wire fields make up, or the reason for which
/// they make up none: the number must be an op code, the name an event,
/// and the name must be there exactly when the op code is `Dispatch`.
pub open spec fn assemble(
    op: u64,
    d: Option<Json>,
    e: Option<Seq<char>>,
    s: Option<Seq<char>>,
) -> Result<Envelope, Seq<char>> {
    match opcode_of(op) {
        None => Err(reason_bad_op()),
        Some(code) => match e {
            None => if code == OpCode::Dispatch {
                Err(reason_bad_pairing())
            } else {
                Ok(Envelope { op: code, d, e: None, s })
            },
            Some(name) => match event_of(name) {
                None => Err(reason_bad_event()),
                Some(event) => if code == OpCode::Dispatch {
                    Ok(Envelope { op: code, d, e: Some(event), s })
                } else {
                    Err(reason_bad_pairing())
                },
            },
        },
    }
}

/// The member of a document under a key, where there is one and it is not
/// `null`.
pub open spec fn present_member(doc: Json, key: Seq<char>) -> Option<Json> {
    match member_of(doc, key) {
        Some(inner) => if inner == Json::Null {
            None
        } else {
            Some(inner)
        },
        None => None,
    }
}

/// The envelope that a JSON document stands for, or the reason for which
/// it stands for none. `op` must be a non-negative integer; `e` and `s`,
/// where present and not `null`, must be strings; members under other keys
/// are passed over. The four fields then go through `assemble`.
pub open spec fn envelope_of(doc: Json) -> Result<Envelope, Seq<char>> {
    let op = match member_of(doc, "op"@) {
        Some(number) => natural_of(number),
        None => None,
    };
    let e = present_member(doc, "e"@);
    let s = present_member(doc, "s"@);
    if op is None {
        Err(reason_bad_op())
    } else if e is Some && text_of(e.unwrap()) is None {
        Err(reason_bad_event())
    } else if s is Some && text_of(s.unwrap()) is None {
        Err(reason_bad_sequence())
    } else {
        assemble(
            op.unwrap(),
            present_member(doc, "d"@),
            if e is Some { text_of(e.unwrap()) } else { None },
            if s is Some { text_of(s.unwrap()) } else { None },
        )
    }
}

/// The envelope that a text stands for, or the reason for which it stands
/// for none.
pub open spec fn decoded(text: Seq<char>) -> Result<Envelope, Seq<char>> {
    match json_parsed(text) {
        Some(doc) => envelope_of(doc),
        None => Err(reason_not_json()),
    }
}

/// Whether what a function returned is what was to be returned: the
/// payload with that envelope, or the error with that reason.
pub open spec fn agrees(returned: Result<Payload, WSError>, due: Result<Envelope, Seq<char>>) -> bool {
    match returned {
        Ok(payload) => due == Ok::<Envelope, Seq<char>>(payload@),
        Err(error) => due == Err::<Envelope, Seq<char>>(error.reason()),
    }
}

/// A text followed by a member, where there is one: the key as it stands
/// on the wire, then what the member is written as.
pub open spec fn with_member(text: Seq<char>, key: Seq<char>, written: Option<Seq<char>>) -> Seq<char> {
    match written {
        Some(member) => text + key + member,
        None => text,
    }
}

/// A text followed by the event member, where there is an event.
pub open spec fn with_event(text: Seq<char>, e: Option<EventName>) -> Seq<char> {
    match e {
        Some(event) => text + ",\"e\":\""@ + event_text(event) + "\""@,
        None => text,
    }
}

/// The text of an envelope on the wire, given what its data and its token
/// are written as: a JSON object with the members `op`, `d`, `e` and `s`
/// in this order, without spaces, a member that is absent being left out.
pub open spec fn framed(
    op: OpCode,
    d: Option<Seq<char>>,
    e: Option<EventName>,
    s: Option<Seq<char>>,
) -> Seq<char> {
    with_member(
        with_event(with_member("{\"op\":"@ + opcode_digits(op), ",\"d\":"@, d), e),
        ",\"s\":"@,
        s,
    ) + "}"@
}

/// What the data of an envelope are written as: the compact text of the
/// document.
pub open spec fn written_data(d: Option<Json>) -> Option<Seq<char>> {
    match d {
        Some(doc) => Some(json_text(doc)),
        None => None,
    }
}

/// What the token of an envelope is written as: the JSON string of its
/// characters, quoted and escaped.
pub open spec fn written_token(s: Option<Seq<char>>) -> Option<Seq<char>> {
    match s {
        Some(token) => Some(json_text(Json::Text(token))),
        None => None,
    }
}

/// The text of an envelope on the wire.
pub open spec fn wire_text(envelope: Envelope) -> Seq<char> {
    framed(envelope.op, written_data(envelope.d), envelope.e, written_token(envelope.s))
}

/// The members of the JSON object that an envelope is written as: `op`
/// with the op code's number, and `d`, `e` and `s` where they are present.
pub open spec fn members_of(envelope: Envelope) -> Map<Seq<char>, Json> {
    let with_op = no_fields().insert(
        "op"@,
        Json::Number(Numeral::Unsigned(opcode_number(envelope.op) as u64)),
    );
    let with_d = match envelope.d {
        Some(doc) => with_op.insert("d"@, doc),
        None => with_op,
    };
    let with_e = match envelope.e {
        Some(event) => with_d.insert("e"@, Json::Text(event_text(event))),
        None => with_d,
    };
    match envelope.s {
        Some(token) => with_e.insert("s"@, Json::Text(token)),
        None => with_e,
    }
}

/// The JSON document that an envelope is written as.
pub open spec fn document_of(envelope: Envelope) -> Json {
    Json::Object(members_of(envelope))
}

fn invalid(reason: &str) -> (error: WSError)
    ensures
        error.reason() == reason@,
{
    WSError::InvalidData(String::from_str(reason))
}

impl Payload {
    /// The envelope that dispatches an event with its data.
    pub fn from_event(payload: Value, event: EventName) -> (made: Self)
        ensures
            made.op == OpCode::Dispatch,
            made.d == Some(payload),
            made.e == Some(event),
            made.s is None,
            made@.well_formed(),
    {
        Self { op: OpCode::Dispatch, d: Some(payload), e: Some(event), s: None }
    }

    /// The envelope of an op code with its data. `Dispatch` is refused: an
    /// event is dispatched through `from_event`, which names it.
    pub fn from_op(payload: Value, op: OpCode) -> (made: Result<Self, WSError>)
        ensures
            made is Ok <==> op != OpCode::Dispatch,
            made matches Ok(p) ==> p.op == op && p.d == Some(payload) && p.e is None && p.s is None
                && p@.well_formed(),
            made matches Err(error) ==> error.reason() == reason_bad_pairing(),
    {
        match op {
            OpCode::Dispatch => Err(invalid("event name and op code do not go together")),
            _ => Ok(Self { op, d: Some(payload), e: None, s: None }),
        }
    }

    /// The envelope of an op code alone. `Dispatch` is refused, as in
    /// `from_op`.
    pub fn from_bare_op(op: OpCode) -> (made: Result<Self, WSError>)
        ensures
            made is Ok <==> op != OpCode::Dispatch,
            made matches Ok(p) ==> p.op == op && p.d is None && p.e is None && p.s is None
                && p@.well_formed(),
            made matches Err(error) ==> error.reason() == reason_bad_pairing(),
    {
        match op {
            OpCode::Dispatch => Err(invalid("event name and op code do not go together")),
            _ => Ok(Self { op, d: None, e: None, s: None }),
        }
    }

    /// Whether the envelope names an event exactly when it dispatches one.
    pub fn is_well_formed(&self) -> (valid: bool)
        ensures
            valid == self@.well_formed(),
    {
        match self.op {
            OpCode::Dispatch => self.e.is_some(),
            _ => self.e.is_none(),
        }
    }

    /// Makes an envelope of the four fields as they stand on the wire, or
    /// says why they make none.
    pub fn from_parts(op: u64, d: Option<Value>, e: Option<&str>, s: Option<String>) -> (made: Result<Self, WSError>)
        ensures
            agrees(made, assemble(op, model_of(d), slice_of(e), string_of(s))),
            made matches Ok(p) ==> p.d == d && p.s == s && p@.well_formed(),
    {
        let code = match OpCode::from_u64(op) {
            Some(code) => code,
            None => { return Err(invalid("missing or unknown op code")); },
        };
        let dispatch = match code {
            OpCode::Dispatch => true,
            _ => false,
        };
        match e {
            None => {
                if dispatch {
                    Err(invalid("event name and op code do not go together"))
                } else {
                    Ok(Self { op: code, d, e: None, s })
                }
            },
            Some(name) => match EventName::from_name(name) {
                None => Err(invalid("unknown event name")),
                Some(event) => {
                    if dispatch {
                        Ok(Self { op: code, d, e: Some(event), s })
                    } else {
                        Err(invalid("event name and op code do not go together"))
                    }
                },
            },
        }
    }

    /// Reads an envelope out of a JSON document, or says why the document
    /// is none.
    pub fn from_value(value: &Value) -> (made: Result<Self, WSError>)
        ensures
            agrees(made, envelope_of(json_model(*value))),
            made matches Ok(p) ==> p@.well_formed(),
    {
        let op = match json::member(value, "op") {
            Some(number) => json::as_natural(number),
            None => None,
        };
        let op = match op {
            Some(op) => op,
            None => { return Err(invalid("missing or unknown op code")); },
        };
        let e = match present(value, "e") {
            Some(inner) => match json::as_text(inner) {
                Some(name) => Some(name),
                None => { return Err(invalid("unknown event name")); },
            },
            None => None,
        };
        let s = match present(value, "s") {
            Some(inner) => match json::as_text(inner) {
                Some(token) => Some(String::from_str(token)),
                None => { return Err(invalid("sequence token is not a string")); },
            },
            None => None,
        };
        let d = match present(value, "d") {
            Some(inner) => Some(json::duplicate(inner)),
            None => None,
        };
        Self::from_parts(op, d, e, s)
    }

    /// Reads an envelope out of a text of the wire, or says why the text
    /// is none.
    pub fn decode(text: &str) -> (made: Result<Self, WSError>)
        ensures
            agrees(made, decoded(text@)),
            made matches Ok(p) ==> p@.well_formed(),
    {
        match json::parse(text) {
            Ok(value) => Self::from_value(&value),
            Err(_) => Err(invalid("payload is not valid JSON")),
        }
    }

    /// Writes the envelope as a JSON document.
    pub fn to_value(&self) -> (value: Value)
        ensures
            json_model(value) == document_of(self@),
    {
        let mut members = json::object_new();
        let number: u64 = self.op.as_u8().into();
        json::object_insert(&mut members, String::from_str("op"), json::from_natural(number));
        match &self.d {
            Some(data) => {
                json::object_insert(&mut members, String::from_str("d"), json::duplicate(data));
            },
            None => {},
        }
        match &self.e {
            Some(event) => {
                json::object_insert(&mut members, String::from_str("e"), json::from_text(event.as_str()));
            },
            None => {},
        }
        match &self.s {
            Some(token) => {
                json::object_insert(&mut members, String::from_str("s"), json::from_text(token.as_str()));
            },
            None => {},
        }
        json::from_object(members)
    }

    /// Puts the text of an envelope together from its op code and event
    /// and from what its data and its token are written as.
    pub fn frame(op: OpCode, d: Option<&str>, e: Option<EventName>, s: Option<&str>) -> (text: String)
        ensures
            text@ == framed(op, slice_of(d), e, slice_of(s)),
    {
        let mut text = String::from_str("{\"op\":");
        text.append(op.digits());
        match d {
            Some(data) => {
                text.append(",\"d\":");
                text.append(data);
            },
            None => {},
        }
        match e {
            Some(event) => {
                text.append(",\"e\":\"");
                text.append(event.as_str());
                text.append("\"");
            },
            None => {},
        }
        match s {
            Some(token) => {
                text.append(",\"s\":");
                text.append(token);
            },
            None => {},
        }
        text.append("}");
        text
    }

    /// Writes the envelope as a text of the wire.
    pub fn encode(&self) -> (text: String)
        ensures
            text@ == wire_text(self@),
    {
        let data = match &self.d {
            Some(data) => Some(json::to_text(data)),
            None => None,
        };
        let token = match &self.s {
            Some(token) => Some(json::to_text(&json::from_text(token.as_str()))),
            None => None,
        };
        Self::frame(
            self.op,
            match &data {
                Some(written) => Some(written.as_str()),
                None => None,
            },
            self.e,
            match &token {
                Some(written) => Some(written.as_str()),
                None => None,
            },
        )
    }
}

/// The member of a value under a key, where there is one and it is not
/// `null`.
fn present<'a>(value: &'a Value, key: &str) -> (found: Option<&'a Value>)
    ensures
        match found {
            Some(inner) => present_member(json_model(*value), key@) == Some(json_model(*inner)),
            None => present_member(json_model(*value), key@) is None,
        },
{
    match json::member(value, key) {
        Some(inner) => if json::is_null(inner) {
            None
        } else {
            Some(inner)
        },
        None => None,
    }
}

/// The four fields of a well-formed envelope make up that envelope again:
/// the number of its op code, its data, the name of its event and its
/// token.
pub proof fn fields_round_trip(envelope: Envelope)
    requires
        envelope.well_formed(),
    ensures
        assemble(opcode_number(envelope.op) as u64, envelope.d, name_of(envelope.e), envelope.s)
            == Ok::<Envelope, Seq<char>>(envelope),
{
    if envelope.e is Some {
        event_round_trip(envelope.e.unwrap(), event_text(envelope.e.unwrap()));
    }
}

/// Whatever the other fields, a number outside 0 to 7 makes no envelope,
/// and the envelope that four fields make up is well formed and has them
/// as its own.
pub proof fn assemble_is_strict(op: u64, d: Option<Json>, e: Option<Seq<char>>, s: Option<Seq<char>>)
    ensures
        op > 7 ==> assemble(op, d, e, s) == Err::<Envelope, Seq<char>>(reason_bad_op()),
        assemble(op, d, e, s) matches Ok(envelope) ==> {
            &&& envelope.well_formed()
            &&& opcode_number(envelope.op) == op
            &&& envelope.d == d
            &&& name_of(envelope.e) == e
            &&& envelope.s == s
        },
{
    if e is Some {
        event_round_trip(EventName::Ready, e.unwrap());
    }
}

/// A dispatch without an event name is refused, and so is an event name
/// beside any other op code: by the constructors' own contracts, and here
/// for the fields of the wire.
pub proof fn pairing_is_enforced(op: u64, d: Option<Json>, e: Option<Seq<char>>, s: Option<Seq<char>>)
    ensures
        opcode_of(op) == Some(OpCode::Dispatch) && e is None ==> assemble(op, d, e, s) == Err::<
            Envelope,
            Seq<char>,
        >(reason_bad_pairing()),
        opcode_of(op) is Some && opcode_of(op) != Some(OpCode::Dispatch) && e is Some ==> assemble(
            op,
            d,
            e,
            s,
        ) is Err,
{
}

/// Reading and writing undo each other on documents. An envelope that was
/// read from a document is well formed, its data are not `null`, and the
/// document that it is written as is read as the same envelope. The same
/// holds of any well-formed envelope whose data are not `null`.
pub proof fn document_round_trip(envelope: Envelope, doc: Json)
    ensures
        envelope.well_formed() && envelope.d != Some(Json::Null) ==> envelope_of(document_of(envelope))
            == Ok::<Envelope, Seq<char>>(envelope),
        envelope_of(doc) matches Ok(read) ==> read.well_formed() && read.d != Some(Json::Null)
            && envelope_of(document_of(read)) == Ok::<Envelope, Seq<char>>(read),
{
    if envelope.well_formed() && envelope.d != Some(Json::Null) {
        written_is_read(envelope);
    }
    if envelope_of(doc) is Ok {
        let read = envelope_of(doc)->Ok_0;
        let op = natural_of(member_of(doc, "op"@).unwrap()).unwrap();
        let e = present_member(doc, "e"@);
        let s = present_member(doc, "s"@);
        assemble_is_strict(
            op,
            present_member(doc, "d"@),
            if e is Some { text_of(e.unwrap()) } else { None },
            if s is Some { text_of(s.unwrap()) } else { None },
        );
        written_is_read(read);
    }
}

/// A text or a document whose `op` is a number outside 0 to 7 is read as
/// no envelope.
pub proof fn unknown_opcode_is_refused(text: Seq<char>, doc: Json, number: u64)
    requires
        member_of(doc, "op"@) matches Some(op) && natural_of(op) == Some(number),
        number > 7,
    ensures
        envelope_of(doc) is Err,
        json_parsed(text) == Some(doc) ==> decoded(text) is Err,
{
}

/// Whatever a text or a document is read as is well formed: an envelope
/// that was read names an event exactly when it dispatches one.
pub proof fn what_is_read_is_well_formed(text: Seq<char>, doc: Json)
    ensures
        decoded(text) matches Ok(read) ==> read.well_formed(),
        envelope_of(doc) matches Ok(read) ==> read.well_formed(),
{
    document_round_trip(envelope_of(doc)->Ok_0, doc);
    if json_parsed(text) is Some {
        document_round_trip(decoded(text)->Ok_0, json_parsed(text).unwrap());
    }
}

proof fn written_is_read(envelope: Envelope)
    requires
        envelope.well_formed(),
        envelope.d != Some(Json::Null),
    ensures
        envelope_of(document_of(envelope)) == Ok::<Envelope, Seq<char>>(envelope),
{
    reveal_strlit("op");
    reveal_strlit("d");
    reveal_strlit("e");
    reveal_strlit("s");
    assert("op"@ != "d"@ && "op"@ != "e"@ && "op"@ != "s"@) by {
        assert("op"@.len() == 2);
    }
    assert("d"@ != "e"@ && "d"@ != "s"@ && "e"@ != "s"@) by {
        assert("d"@[0] == 'd' && "e"@[0] == 'e' && "s"@[0] == 's');
    }
    let doc = document_of(envelope);
    assert(member_of(doc, "op"@) == Some(Json::Number(Numeral::Unsigned(opcode_number(envelope.op) as u64))));
    assert(present_member(doc, "d"@) == envelope.d);
    assert(present_member(doc, "e"@) == match envelope.e {
        Some(event) => Some(Json::Text(event_text(event))),
        None => None,
    });
    assert(present_member(doc, "s"@) == match envelope.s {
        Some(token) => Some(Json::Text(token)),
        None => None,
    });
    fields_round_trip(envelope);
}

} // verus!
