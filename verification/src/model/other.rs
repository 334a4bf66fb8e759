use vstd::prelude::*;
use vstd::string::StringExecFns;
use vstd::std_specs::convert::FromSpecImpl;
use vstd::std_specs::convert::TryFromSpecImpl;
use actix_web_actors::ws::CloseReason;
use crate::utils::error::WSError;

verus! {

/// The closed vocabulary of reasons for which the gateway ends a session.
#[derive(Clone, Copy, Debug, PartialEq, Eq, Structural)]
pub enum CloseCodes {
    InvalidOpCode,
    InvalidPacket,
    NotAuthenticated,
    MissingSessionID,
    InvalidSessionID,
    InvalidUserToken,
    HeartbeatTimeout,
    IdentifyTimeout,
}

/// The numeric code that stands for each reason on the wire.
pub open spec fn code_of(reason: CloseCodes) -> u16 {
    match reason {
        CloseCodes::InvalidOpCode => 4001,
        CloseCodes::InvalidPacket => 4002,
        CloseCodes::NotAuthenticated => 4003,
        CloseCodes::MissingSessionID => 4004,
        CloseCodes::InvalidSessionID => 4005,
        CloseCodes::InvalidUserToken => 4006,
        CloseCodes::HeartbeatTimeout => 4008,
        CloseCodes::IdentifyTimeout => 4009,
    }
}

/// Whether a number is one of the registry's codes.
pub open spec fn is_close_code(code: u16) -> bool {
    4001 <= code <= 4009 && code != 4007
}

/// The reason that a number stands for, where it stands for one.
pub open spec fn reason_of(code: u16) -> Option<CloseCodes> {
    if code == 4001 {
        Some(CloseCodes::InvalidOpCode)
    } else if code == 4002 {
        Some(CloseCodes::InvalidPacket)
    } else if code == 4003 {
        Some(CloseCodes::NotAuthenticated)
    } else if code == 4004 {
        Some(CloseCodes::MissingSessionID)
    } else if code == 4005 {
        Some(CloseCodes::InvalidSessionID)
    } else if code == 4006 {
        Some(CloseCodes::InvalidUserToken)
    } else if code == 4008 {
        Some(CloseCodes::HeartbeatTimeout)
    } else if code == 4009 {
        Some(CloseCodes::IdentifyTimeout)
    } else {
        None
    }
}

/// The words that go with each reason.
pub open spec fn description_of(reason: CloseCodes) -> Seq<char> {
    match reason {
        CloseCodes::InvalidOpCode => "you sent a non-existent op code or invalid data for an op code. Don't do that!"@,
        CloseCodes::InvalidPacket => "you sent us an invalid payload. Don't do that!"@,
        CloseCodes::NotAuthenticated => "you tried sending a payload before identifying."@,
        CloseCodes::MissingSessionID => "you sent us a packet without a session ID. Don't do that!"@,
        CloseCodes::InvalidSessionID => "the session ID you used is not valid. Reconnect and try again"@,
        CloseCodes::InvalidUserToken => "the user token provided is not valid."@,
        CloseCodes::HeartbeatTimeout => "you didn't answer the heartbeat in time, please reconnect"@,
        CloseCodes::IdentifyTimeout => "you didn't identify in time. Try again"@,
    }
}

/// What `try_from` says of a number that is no close code.
pub open spec fn unknown_code_reason() -> Seq<char> {
    "Invalid Close Code"@
}

impl CloseCodes {
    pub fn as_u16(&self) -> (code: u16)
        ensures
            code == code_of(*self),
    {
        match self {
            Self::InvalidOpCode => 4001,
            Self::InvalidPacket => 4002,
            Self::NotAuthenticated => 4003,
            Self::MissingSessionID => 4004,
            Self::InvalidSessionID => 4005,
            Self::InvalidUserToken => 4006,
            Self::HeartbeatTimeout => 4008,
            Self::IdentifyTimeout => 4009,
        }
    }

    pub fn description(&self) -> (text: &'static str)
        ensures
            text@ == description_of(*self),
    {
        match self {
            Self::InvalidOpCode => "you sent a non-existent op code or invalid data for an op code. Don't do that!",
            Self::InvalidPacket => "you sent us an invalid payload. Don't do that!",
            Self::NotAuthenticated => "you tried sending a payload before identifying.",
            Self::MissingSessionID => "you sent us a packet without a session ID. Don't do that!",
            Self::InvalidSessionID => "the session ID you used is not valid. Reconnect and try again",
            Self::InvalidUserToken => "the user token provided is not valid.",
            Self::HeartbeatTimeout => "you didn't answer the heartbeat in time, please reconnect",
            Self::IdentifyTimeout => "you didn't identify in time. Try again",
        }
    }
}

impl From<CloseCodes> for u16 {
    fn from(cc: CloseCodes) -> (code: u16) {
        cc.as_u16()
    }
}

impl FromSpecImpl<CloseCodes> for u16 {
    open spec fn obeys_from_spec() -> bool {
        true
    }

    open spec fn from_spec(cc: CloseCodes) -> u16 {
        code_of(cc)
    }
}

impl TryFrom<u16> for CloseCodes {
    type Error = WSError;

    fn try_from(code: u16) -> (found: Result<CloseCodes, WSError>)
        ensures
            match found {
                Ok(reason) => reason_of(code) == Some(reason),
                Err(e) => reason_of(code) is None && e.reason() == unknown_code_reason(),
            },
    {
        match code {
            4001 => Ok(Self::InvalidOpCode),
            4002 => Ok(Self::InvalidPacket),
            4003 => Ok(Self::NotAuthenticated),
            4004 => Ok(Self::MissingSessionID),
            4005 => Ok(Self::InvalidSessionID),
            4006 => Ok(Self::InvalidUserToken),
            4008 => Ok(Self::HeartbeatTimeout),
            4009 => Ok(Self::IdentifyTimeout),
            _ => Err(WSError::InvalidData(String::from_str("Invalid Close Code"))),
        }
    }
}

/// The error of `try_from` holds a string, and a string has no value in
/// specifications: what `try_from` returns is stated on the function itself.
impl TryFromSpecImpl<u16> for CloseCodes {
    open spec fn obeys_try_from_spec() -> bool {
        false
    }

    open spec fn try_from_spec(code: u16) -> Result<CloseCodes, WSError> {
        match reason_of(code) {
            Some(reason) => Ok(reason),
            None => Err(arbitrary()),
        }
    }
}

/// The close reason of the websocket layer, as far as this library reads it.
#[verifier::external_type_specification]
#[verifier::external_body]
pub struct ExCloseReason(CloseReason);

/// The number that a close reason carries on the wire.
pub uninterp spec fn close_reason_code(reason: CloseReason) -> u16;

/// The words that a close reason carries, if any.
pub uninterp spec fn close_reason_text(reason: CloseReason) -> Option<Seq<char>>;

/// Builds the websocket layer's close reason from a number and words:
/// `CloseCode::from` on the number, and the words as the description.
/// The number that the reason then carries is the one given, because
/// `CloseCode::from` and `u16::from` are inverse to each other.
#[verifier::external_body]
fn close_reason(code: u16, description: String) -> (reason: CloseReason)
    ensures
        close_reason_code(reason) == code,
        close_reason_text(reason) == Some(description@),
{
    CloseReason { code: actix_web_actors::ws::CloseCode::from(code), description: Some(description) }
}

impl From<CloseCodes> for CloseReason {
    fn from(cc: CloseCodes) -> (reason: CloseReason)
        ensures
            close_reason_code(reason) == code_of(cc),
            close_reason_text(reason) == Some(description_of(cc)),
    {
        close_reason(cc.as_u16(), String::from_str(cc.description()))
    }
}

/// A close reason of the websocket layer has no value in specifications:
/// what `from` returns is stated on the function itself, over what the
/// reason carries.
impl FromSpecImpl<CloseCodes> for CloseReason {
    open spec fn obeys_from_spec() -> bool {
        false
    }

    open spec fn from_spec(cc: CloseCodes) -> CloseReason {
        arbitrary()
    }
}

/// The registry is total and one to one: each reason is found again from
/// its code, each code of the table is the code of the reason it stands
/// for, and a number outside the table stands for no reason.
pub proof fn registry_round_trip(reason: CloseCodes, code: u16)
    ensures
        is_close_code(code_of(reason)),
        reason_of(code_of(reason)) == Some(reason),
        is_close_code(code) <==> reason_of(code) is Some,
        reason_of(code) matches Some(found) ==> code_of(found) == code,
{
}

} // verus!
