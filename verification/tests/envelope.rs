use gateway::model::commands::{Hello, Identify};
use gateway::model::{EventName, OpCode, Payload};
use gateway::utils::error::WSError;
use serde_json::Value;
use uuid::Uuid;

const OPS: [(OpCode, u8); 8] = [
    (OpCode::Dispatch, 0),
    (OpCode::Hello, 1),
    (OpCode::Identify, 2),
    (OpCode::Reconnect, 3),
    (OpCode::GuildSubscribe, 4),
    (OpCode::GuildUnsubscribe, 5),
    (OpCode::SubscriptionAck, 6),
    (OpCode::GuildRequest, 7),
];

const EVENTS: [(EventName, &str); 13] = [
    (EventName::Ready, "READY"),
    (EventName::GuildAccessReceived, "GUILD_ACCESS_RECEIVED"),
    (EventName::GuildAccessRevoked, "GUILD_ACCESS_REVOKED"),
    (EventName::GuildDelete, "GUILD_DELETE"),
    (EventName::GuildChannelCreate, "GUILD_CHANNEL_CREATE"),
    (EventName::GuildChannelUpdate, "GUILD_CHANNEL_UPDATE"),
    (EventName::GuildChannelDelete, "GUILD_CHANNEL_DELETE"),
    (EventName::GuildRoleCreate, "GUILD_ROLE_CREATE"),
    (EventName::GuildRoleUpdate, "GUILD_ROLE_UPDATE"),
    (EventName::GuildRoleDelete, "GUILD_ROLE_DELETE"),
    (EventName::GuildData, "GUILD_DATA"),
    (EventName::GuildUpdate, "GUILD_UPDATE"),
    (EventName::PartialGuildUpdate, "PARTIAL_GUILD_UPDATE"),
];

fn json(text: &str) -> Value {
    serde_json::from_str(text).unwrap()
}

fn reason(error: WSError) -> String {
    match error {
        WSError::InvalidData(reason) => reason,
    }
}

#[test]
fn op_codes_have_their_numbers() {
    for (op, number) in OPS {
        assert_eq!(op.as_u8(), number);
        assert_eq!(op.digits(), number.to_string());
        assert_eq!(OpCode::from_u64(number as u64), Some(op));
    }
}

#[test]
fn numbers_above_seven_are_no_op_codes() {
    for number in [8u64, 9, 10, 255, 256, 258, u64::MAX] {
        assert_eq!(OpCode::from_u64(number), None);
    }
}

#[test]
fn events_have_their_names() {
    for (event, name) in EVENTS {
        assert_eq!(event.as_str(), name);
        assert_eq!(EventName::from_name(name), Some(event));
    }
}

#[test]
fn other_texts_are_no_event_names() {
    for name in ["", "ready", "READY ", "GUILD", "GUILD_ROLE", "PARTIAL_GUILD_UPDATES"] {
        assert_eq!(EventName::from_name(name), None);
    }
}

#[test]
fn from_event_sets_dispatch() {
    let made = Payload::from_event(json("{\"a\":1}"), EventName::GuildDelete);
    assert_eq!(
        made,
        Payload { op: OpCode::Dispatch, d: Some(json("{\"a\":1}")), e: Some(EventName::GuildDelete), s: None }
    );
    assert!(made.is_well_formed());
}

#[test]
fn from_op_keeps_op_and_data() {
    for (op, _) in OPS {
        let made = Payload::from_op(json("[1,2]"), op);
        if op == OpCode::Dispatch {
            assert_eq!(reason(made.unwrap_err()), "event name and op code do not go together");
        } else {
            let made = made.unwrap();
            assert_eq!(made, Payload { op, d: Some(json("[1,2]")), e: None, s: None });
            assert!(made.is_well_formed());
        }
    }
}

#[test]
fn from_bare_op_has_no_data() {
    for (op, _) in OPS {
        let made = Payload::from_bare_op(op);
        if op == OpCode::Dispatch {
            assert_eq!(reason(made.unwrap_err()), "event name and op code do not go together");
        } else {
            let made = made.unwrap();
            assert_eq!(made, Payload { op, d: None, e: None, s: None });
            assert!(made.is_well_formed());
        }
    }
}

#[test]
fn dispatch_without_event_is_rejected() {
    let bare = Payload { op: OpCode::Dispatch, d: None, e: None, s: None };
    assert!(!bare.is_well_formed());
    assert!(Payload::from_parts(0, None, None, None).is_err());
    assert!(Payload::from_op(Value::Null, OpCode::Dispatch).is_err());
    assert!(Payload::from_bare_op(OpCode::Dispatch).is_err());
    assert_eq!(
        reason(Payload::decode("{\"op\":0}").unwrap_err()),
        "event name and op code do not go together"
    );
    assert_eq!(
        reason(Payload::decode("{\"op\":0,\"d\":{}}").unwrap_err()),
        "event name and op code do not go together"
    );
}

#[test]
fn event_beside_another_op_is_rejected() {
    let odd = Payload { op: OpCode::Hello, d: None, e: Some(EventName::Ready), s: None };
    assert!(!odd.is_well_formed());
    for number in 1..=7u64 {
        assert_eq!(
            reason(Payload::from_parts(number, None, Some("READY"), None).unwrap_err()),
            "event name and op code do not go together"
        );
    }
    assert_eq!(
        reason(Payload::decode("{\"op\":2,\"e\":\"READY\"}").unwrap_err()),
        "event name and op code do not go together"
    );
}

#[test]
fn from_parts_gives_each_error() {
    assert_eq!(reason(Payload::from_parts(8, None, None, None).unwrap_err()), "missing or unknown op code");
    assert_eq!(
        reason(Payload::from_parts(8, None, Some("NOPE"), None).unwrap_err()),
        "missing or unknown op code"
    );
    assert_eq!(reason(Payload::from_parts(0, None, Some("NOPE"), None).unwrap_err()), "unknown event name");
    assert_eq!(reason(Payload::from_parts(3, None, Some("NOPE"), None).unwrap_err()), "unknown event name");
    assert_eq!(
        reason(Payload::from_parts(0, None, None, Some("x".to_string())).unwrap_err()),
        "event name and op code do not go together"
    );
}

#[test]
fn from_parts_round_trips_every_op_code() {
    for (op, number) in OPS {
        let e = if op == OpCode::Dispatch { Some(EventName::GuildData) } else { None };
        let payload = Payload { op, d: Some(json("{\"k\":[true]}")), e, s: Some("7".to_string()) };
        let again = Payload::from_parts(
            payload.op.as_u8() as u64,
            payload.d.clone(),
            payload.e.map(|e| e.as_str()),
            payload.s.clone(),
        );
        assert_eq!(again, Ok(payload));
        assert_eq!(OPS[number as usize].0, op);
    }
}

#[test]
fn decode_accepts_every_op_code() {
    for (op, number) in OPS {
        let text = if op == OpCode::Dispatch {
            "{\"op\":0,\"e\":\"READY\"}".to_string()
        } else {
            format!("{{\"op\":{}}}", number)
        };
        let read = Payload::decode(&text).unwrap();
        assert_eq!(read.op, op);
        assert_eq!(read.encode(), text);
        assert_eq!(Payload::decode(&read.encode()), Ok(read));
    }
}

#[test]
fn decode_rejects_numbers_outside_the_table() {
    for text in [
        "{\"op\":8}",
        "{\"op\":255}",
        "{\"op\":256}",
        "{\"op\":258}",
        "{\"op\":18446744073709551615}",
        "{\"op\":-1}",
        "{\"op\":2.0}",
        "{\"op\":\"2\"}",
        "{\"op\":null}",
        "{\"op\":[2]}",
        "{}",
        "{\"d\":{\"token\":\"t\"}}",
        "[2]",
        "2",
        "null",
    ] {
        assert_eq!(reason(Payload::decode(text).unwrap_err()), "missing or unknown op code", "{}", text);
    }
}

#[test]
fn decode_rejects_what_is_not_json() {
    for text in ["", "{", "{\"op\":2", "{op:2}", "{\"op\":2}}", "hello", "{\"op\":2,}"] {
        assert_eq!(reason(Payload::decode(text).unwrap_err()), "payload is not valid JSON", "{}", text);
    }
}

#[test]
fn decode_rejects_bad_event_and_sequence() {
    assert_eq!(reason(Payload::decode("{\"op\":0,\"e\":\"NOPE\"}").unwrap_err()), "unknown event name");
    assert_eq!(reason(Payload::decode("{\"op\":0,\"e\":5}").unwrap_err()), "unknown event name");
    assert_eq!(reason(Payload::decode("{\"op\":0,\"e\":{\"READY\":null}}").unwrap_err()), "unknown event name");
    assert_eq!(
        reason(Payload::decode("{\"op\":2,\"s\":5}").unwrap_err()),
        "sequence token is not a string"
    );
    assert_eq!(
        reason(Payload::decode("{\"op\":2,\"s\":[\"a\"]}").unwrap_err()),
        "sequence token is not a string"
    );
    assert_eq!(reason(Payload::decode("{\"op\":9,\"e\":5,\"s\":5}").unwrap_err()), "unknown event name");
    assert_eq!(reason(Payload::decode("{\"op\":9,\"s\":5}").unwrap_err()), "sequence token is not a string");
}

#[test]
fn decode_reads_all_members() {
    let read = Payload::decode(
        " { \"s\" : \"tok\\n\", \"e\" : \"GUILD_ROLE_UPDATE\", \"d\" : { \"x\" : [1, 2.5, null] }, \"op\" : 0, \"more\" : 1 } ",
    )
    .unwrap();
    assert_eq!(
        read,
        Payload {
            op: OpCode::Dispatch,
            d: Some(json("{\"x\":[1,2.5,null]}")),
            e: Some(EventName::GuildRoleUpdate),
            s: Some("tok\n".to_string()),
        }
    );
}

#[test]
fn decode_takes_null_for_absent() {
    let read = Payload::decode("{\"op\":2,\"d\":null,\"e\":null,\"s\":null}").unwrap();
    assert_eq!(read, Payload { op: OpCode::Identify, d: None, e: None, s: None });
    let read = Payload::decode("{\"op\":2,\"d\":false}").unwrap();
    assert_eq!(read.d, Some(Value::Bool(false)));
}

#[test]
fn from_value_reads_a_document() {
    let read = Payload::from_value(&json("{\"op\":7,\"d\":\"x\",\"s\":\"\"}")).unwrap();
    assert_eq!(
        read,
        Payload { op: OpCode::GuildRequest, d: Some(Value::from("x")), e: None, s: Some(String::new()) }
    );
    assert!(Payload::from_value(&json("[7]")).is_err());
}

#[test]
fn encode_omits_absent_members() {
    assert_eq!(Payload::from_bare_op(OpCode::Reconnect).unwrap().encode(), "{\"op\":3}");
    assert_eq!(
        Payload::from_op(json("{\"b\":1,\"a\":[]}"), OpCode::SubscriptionAck).unwrap().encode(),
        "{\"op\":6,\"d\":{\"a\":[],\"b\":1}}"
    );
    assert_eq!(
        Payload::from_event(Value::Null, EventName::PartialGuildUpdate).encode(),
        "{\"op\":0,\"d\":null,\"e\":\"PARTIAL_GUILD_UPDATE\"}"
    );
}

#[test]
fn encode_writes_members_in_order() {
    let payload = Payload {
        op: OpCode::Dispatch,
        d: Some(json("{\"user\":{\"id\":\"1\"}}")),
        e: Some(EventName::Ready),
        s: Some("a\"b\\c\n".to_string()),
    };
    let text = payload.encode();
    assert_eq!(text, "{\"op\":0,\"d\":{\"user\":{\"id\":\"1\"}},\"e\":\"READY\",\"s\":\"a\\\"b\\\\c\\n\"}");
    assert_eq!(Payload::decode(&text), Ok(payload));
}

#[test]
fn encode_without_data() {
    let payload = Payload { op: OpCode::Identify, d: None, e: None, s: Some("9".to_string()) };
    assert_eq!(payload.encode(), "{\"op\":2,\"s\":\"9\"}");
}

#[test]
fn to_value_writes_the_document() {
    let payload = Payload {
        op: OpCode::Dispatch,
        d: Some(json("[1]")),
        e: Some(EventName::GuildUpdate),
        s: Some("s1".to_string()),
    };
    assert_eq!(payload.to_value(), json("{\"op\":0,\"d\":[1],\"e\":\"GUILD_UPDATE\",\"s\":\"s1\"}"));
    assert_eq!(Payload::from_value(&payload.to_value()), Ok(payload));
    let bare = Payload::from_bare_op(OpCode::GuildSubscribe).unwrap();
    assert_eq!(bare.to_value(), json("{\"op\":4}"));
    assert_eq!(Payload::from_value(&bare.to_value()), Ok(bare));
}

#[test]
fn null_data_do_not_come_back() {
    let payload = Payload::from_op(Value::Null, OpCode::Hello).unwrap();
    let again = Payload::from_value(&payload.to_value()).unwrap();
    assert_eq!(again, Payload { op: OpCode::Hello, d: None, e: None, s: None });
    assert_eq!(Payload::decode(&payload.encode()), Ok(again));
}

#[test]
fn hello_is_written_as_an_object() {
    let id = Uuid::from_u128(0x0123456789abcdef_fedcba9876543210);
    let hello = Hello { heartbeat: 5, session_id: id };
    assert_eq!(
        hello.to_value(),
        json("{\"heartbeat\":5,\"session_id\":\"01234567-89ab-cdef-fedc-ba9876543210\"}")
    );
    let big = Hello { heartbeat: u64::MAX, session_id: Uuid::from_u128(0) };
    assert_eq!(
        Payload::from_op(big.to_value(), OpCode::Hello).unwrap().encode(),
        "{\"op\":1,\"d\":{\"heartbeat\":18446744073709551615,\"session_id\":\"00000000-0000-0000-0000-000000000000\"}}"
    );
}

#[test]
fn identify_needs_a_token() {
    assert_eq!(
        Identify::from_value(&json("{\"token\":\"abc\",\"x\":1}")),
        Some(Identify { token: "abc".to_string() })
    );
    assert_eq!(Identify::from_value(&json("{\"token\":\"\"}")), Some(Identify { token: String::new() }));
    for doc in ["{}", "{\"token\":5}", "{\"token\":null}", "{\"Token\":\"abc\"}", "[\"abc\"]", "\"abc\"", "null"] {
        assert_eq!(Identify::from_value(&json(doc)), None, "{}", doc);
    }
}

#[test]
fn frame_puts_the_members_together() {
    assert_eq!(Payload::frame(OpCode::Identify, None, None, None), "{\"op\":2}");
    assert_eq!(
        Payload::frame(OpCode::Dispatch, Some("[1]"), Some(EventName::Ready), Some("\"x\"")),
        "{\"op\":0,\"d\":[1],\"e\":\"READY\",\"s\":\"x\"}"
    );
    assert_eq!(Payload::frame(OpCode::GuildRequest, None, None, Some("\"\"")), "{\"op\":7,\"s\":\"\"}");
    assert_eq!(
        Payload::frame(OpCode::Hello, Some("{}"), Some(EventName::GuildData), None),
        "{\"op\":1,\"d\":{},\"e\":\"GUILD_DATA\"}"
    );
}
