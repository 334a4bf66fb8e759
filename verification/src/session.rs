//! The lifecycle of one connection: greeting, identification, liveness
//! and the ways in which a session ends.
//!
//! A session decides and never acts. Each thing that happens to the
//! connection is handed to one of its methods, which moves the session on
//! and answers with the one [`Action`] that the transport is to perform.
//! Time is a number of nanoseconds on a clock that only moves forward;
//! where the clock starts is up to the caller.

use vstd::prelude::*;
use bytes::Bytes;
use uuid::Uuid;
use crate::ident;
use crate::ident::nibble_at;
use crate::ident::uuid_bits;
use crate::model::commands::Hello;
use crate::model::commands::Identify;
use crate::model::commands::hello_document;
use crate::model::commands::token_of;
use crate::model::other::CloseCodes;
use crate::model::other::code_of;
use crate::model::payload::Envelope;
use crate::model::payload::OpCode;
use crate::model::payload::Payload;
use crate::model::payload::decoded;
use crate::model::payload::wire_text;
use crate::utils::error::WSError;

verus! {

/// How often the server probes the peer, in seconds.
pub const HEARTBEAT_INTERVAL_SECS: u64 = 5;

/// How long the peer may stay silent before the session ends, in seconds.
pub const CLIENT_TIMEOUT_SECS: u64 = 10;

/// How long the peer has to identify itself, in seconds.
pub const IDENTIFY_DEADLINE_SECS: u64 = 10;

/// `CLIENT_TIMEOUT_SECS` in nanoseconds.
pub const CLIENT_TIMEOUT_NANOS: u128 = 10_000_000_000;

/// A run of bytes of the `bytes` crate. The session hands the bytes of a
/// probe back in its reply and never looks inside.
#[verifier::external_type_specification]
#[verifier::external_body]
pub struct ExBytes(Bytes);

/// Where a session stands in its life.
#[derive(Clone, Copy, Debug, PartialEq, Eq, Structural)]
pub enum Phase {
    /// Accepted, the greeting not yet sent.
    Connecting,
    /// Greeted, waiting for the peer to identify itself.
    AwaitingIdentify,
    /// The peer has identified itself.
    Identified,
    /// The session has asked for the connection to be closed.
    Closing,
    /// The connection is gone.
    Closed,
}

/// What the transport delivers: the frames of a websocket, with as much
/// of each as a session reads.
#[derive(Debug, PartialEq)]
pub enum Message {
    /// A text frame, which should hold an envelope.
    Text(String),
    /// A binary frame.
    Binary,
    /// A piece of a frame that was cut up.
    Continuation,
    /// A probe from the peer, with the bytes it wants back.
    Ping(Bytes),
    /// The peer's reply to a probe.
    Pong,
    /// The peer's close frame: the peer is ending the connection.
    Close,
    /// Nothing.
    Nop,
}

/// What the transport is to do for the session.
#[derive(Debug, PartialEq)]
pub enum Action {
    /// Nothing.
    Idle,
    /// Send the greeting, and start the heartbeat and the identify
    /// deadline.
    Greet(String),
    /// Probe the peer.
    Ping,
    /// Answer the peer's probe with its own bytes.
    Pong(Bytes),
    /// The peer has identified itself with this.
    Accept(Identify),
    /// Close the connection for this reason.
    Close(CloseCodes),
    /// Drop the connection and release what belongs to the session.
    Stop,
}

/// An action as a mathematical value.
pub enum ActionView {
    Idle,
    Greet(Seq<char>),
    Ping,
    Pong(Bytes),
    Accept(Seq<char>),
    Close(CloseCodes),
    Stop,
}

impl View for Action {
    type V = ActionView;

    open spec fn view(&self) -> ActionView {
        match *self {
            Action::Idle => ActionView::Idle,
            Action::Greet(text) => ActionView::Greet(text@),
            Action::Ping => ActionView::Ping,
            Action::Pong(bytes) => ActionView::Pong(bytes),
            Action::Accept(identify) => ActionView::Accept(identify.token@),
            Action::Close(reason) => ActionView::Close(reason),
            Action::Stop => ActionView::Stop,
        }
    }
}

/// Anything that can happen to a session.
#[derive(Debug, PartialEq)]
pub enum Event {
    /// The connection has been accepted.
    Started,
    /// The transport has delivered a message, or failed, at this time.
    Inbound(Result<Message, WSError>, u128),
    /// The heartbeat timer has fired at this time.
    HeartbeatTick(u128),
    /// The identify deadline has passed.
    IdentifyDeadline,
    /// The close that the session asked for has gone out.
    Flushed,
    /// The connection has ended.
    Finished,
}

/// A session as a mathematical value.
pub struct SessionState {
    pub id: Uuid,
    pub last_liveness: u128,
    pub identified: bool,
    pub phase: Phase,
}

/// A state and the action that led to it.
pub struct Outcome {
    pub state: SessionState,
    pub action: ActionView,
}

impl SessionState {
    /// Whether the session still talks to its peer.
    pub open spec fn live(self) -> bool {
        self.phase == Phase::Connecting || self.phase == Phase::AwaitingIdentify || self.phase
            == Phase::Identified
    }

    /// The phase and the mark of identification go together: a session
    /// that waits has not been identified, one in the phase `Identified`
    /// has.
    pub open spec fn coherent(self) -> bool {
        &&& self.phase == Phase::Connecting || self.phase == Phase::AwaitingIdentify
            ==> !self.identified
        &&& self.phase == Phase::Identified ==> self.identified
    }

    /// The same session in another phase.
    pub open spec fn moved_to(self, phase: Phase) -> SessionState {
        SessionState { phase, ..self }
    }

    /// The same session, heard from at `now`.
    pub open spec fn heard_at(self, now: u128) -> SessionState {
        SessionState { last_liveness: now, ..self }
    }

    /// The session stays as it is, and nothing is to be done.
    pub open spec fn unmoved(self) -> Outcome {
        Outcome { state: self, action: ActionView::Idle }
    }

    /// The session asks for the connection to be closed.
    pub open spec fn closing_for(self, reason: CloseCodes) -> Outcome {
        Outcome { state: self.moved_to(Phase::Closing), action: ActionView::Close(reason) }
    }

    /// The session gives the connection up.
    pub open spec fn stopped(self) -> Outcome {
        Outcome { state: self.moved_to(Phase::Closed), action: ActionView::Stop }
    }
}

/// A session right after the connection was accepted.
pub open spec fn initial(id: Uuid, now: u128) -> SessionState {
    SessionState { id, last_liveness: now, identified: false, phase: Phase::Connecting }
}

/// The greeting of a session on the wire: the `Hello` envelope whose data
/// are the heartbeat interval and the session's identifier.
pub open spec fn greeting(id: Uuid) -> Seq<char> {
    wire_text(
        Envelope {
            op: OpCode::Hello,
            d: Some(hello_document(HEARTBEAT_INTERVAL_SECS, uuid_bits(id))),
            e: None,
            s: None,
        },
    )
}

/// Whether a peer last heard from at `last` has been silent for too long
/// at `now`.
pub open spec fn stale(last: u128, now: u128) -> bool {
    now - last > CLIENT_TIMEOUT_NANOS
}

/// Whether a peer last heard from at `last` has been silent for too long
/// at `now`: for more than `CLIENT_TIMEOUT_SECS` seconds.
pub fn timed_out(last: u128, now: u128) -> (silent: bool)
    ensures
        silent == stale(last, now),
{
    now > last && now - last > CLIENT_TIMEOUT_NANOS
}

/// Start: a session that was just accepted greets its peer and waits for
/// it to identify itself. At any other time nothing happens.
pub open spec fn on_started(s: SessionState) -> Outcome {
    if s.phase == Phase::Connecting {
        Outcome { state: s.moved_to(Phase::AwaitingIdentify), action: ActionView::Greet(greeting(s.id)) }
    } else {
        s.unmoved()
    }
}

/// The identify deadline: a live session that has not been identified is
/// closed for it. Otherwise nothing happens.
pub open spec fn on_deadline(s: SessionState) -> Outcome {
    if s.live() && !s.identified {
        s.closing_for(CloseCodes::IdentifyTimeout)
    } else {
        s.unmoved()
    }
}

/// A heartbeat tick: a live session whose peer has been silent for too
/// long is closed for it, and no probe goes out; any other live session
/// probes its peer. After the end nothing happens.
pub open spec fn on_heartbeat(s: SessionState, now: u128) -> Outcome {
    if !s.live() {
        s.unmoved()
    } else if stale(s.last_liveness, now) {
        s.closing_for(CloseCodes::HeartbeatTimeout)
    } else {
        Outcome { state: s, action: ActionView::Ping }
    }
}

/// An envelope from the peer: the first `Identify` with a token is
/// accepted, and the session is identified from then on. Anything else
/// closes a live session for an invalid op code: another op code, an
/// `Identify` without a token, a second `Identify`.
pub open spec fn on_payload(s: SessionState, envelope: Envelope) -> Outcome {
    if !s.live() {
        s.unmoved()
    } else if envelope.op == OpCode::Identify && !s.identified && envelope.d is Some && token_of(
        envelope.d.unwrap(),
    ) is Some {
        Outcome {
            state: SessionState { identified: true, phase: Phase::Identified, ..s },
            action: ActionView::Accept(token_of(envelope.d.unwrap()).unwrap()),
        }
    } else {
        s.closing_for(CloseCodes::InvalidOpCode)
    }
}

/// A text from the peer: it is handled as the envelope that it stands
/// for, and closes a live session for an invalid packet where it stands
/// for none.
pub open spec fn on_text(s: SessionState, text: Seq<char>) -> Outcome {
    if !s.live() {
        s.unmoved()
    } else {
        match decoded(text) {
            Ok(envelope) => on_payload(s, envelope),
            Err(_) => s.closing_for(CloseCodes::InvalidPacket),
        }
    }
}

/// A delivery from the transport. A failure of the transport ends the
/// session at once, unless it has ended already. A message finds only a
/// live session: a probe is answered with its own bytes, a probe and the
/// reply to one both show that the peer is alive, and a text is handled
/// as an envelope. The peer's close frame ends the session at once, as a
/// failure does: the session is closed without a close of its own. A
/// binary frame or a piece of one closes the session for an invalid
/// packet.
pub open spec fn on_inbound(s: SessionState, delivery: Result<Message, WSError>, now: u128) -> Outcome {
    match delivery {
        Err(_) => on_finished(s),
        Ok(message) => if !s.live() {
            s.unmoved()
        } else {
            match message {
                Message::Ping(bytes) => Outcome { state: s.heard_at(now), action: ActionView::Pong(bytes) },
                Message::Pong => Outcome { state: s.heard_at(now), action: ActionView::Idle },
                Message::Nop => s.unmoved(),
                Message::Text(text) => on_text(s, text@),
                Message::Binary => s.closing_for(CloseCodes::InvalidPacket),
                Message::Continuation => s.closing_for(CloseCodes::InvalidPacket),
                Message::Close => on_finished(s),
            }
        },
    }
}

/// The close has gone out: a closing session is closed and gives up what
/// it holds. At any other time nothing happens.
pub open spec fn on_flushed(s: SessionState) -> Outcome {
    if s.phase == Phase::Closing {
        s.stopped()
    } else {
        s.unmoved()
    }
}

/// The connection has ended: the session is closed, whatever its phase,
/// and gives up what it holds. Once closed, nothing happens.
pub open spec fn on_finished(s: SessionState) -> Outcome {
    if s.phase == Phase::Closed {
        s.unmoved()
    } else {
        s.stopped()
    }
}

/// What an event makes of a session.
pub open spec fn next(s: SessionState, event: Event) -> Outcome {
    match event {
        Event::Started => on_started(s),
        Event::Inbound(delivery, now) => on_inbound(s, delivery, now),
        Event::HeartbeatTick(now) => on_heartbeat(s, now),
        Event::IdentifyDeadline => on_deadline(s),
        Event::Flushed => on_flushed(s),
        Event::Finished => on_finished(s),
    }
}

/// The session of one connection.
#[derive(Debug)]
pub struct Session {
    id: Uuid,
    hb: u128,
    ready: bool,
    phase: Phase,
}

impl View for Session {
    type V = SessionState;

    closed spec fn view(&self) -> SessionState {
        SessionState { id: self.id, last_liveness: self.hb, identified: self.ready, phase: self.phase }
    }
}

impl Session {
    #[verifier::type_invariant]
    spec fn inv(self) -> bool {
        self@.coherent()
    }

    /// The session of a connection accepted at `now`, under a given
    /// identifier.
    pub fn new(id: Uuid, now: u128) -> (session: Session)
        ensures
            session@ == initial(id, now),
            session@.coherent(),
    {
        Session { id, hb: now, ready: false, phase: Phase::Connecting }
    }

    /// The session of a connection accepted at `now`, under a fresh
    /// random identifier. Of the identifier only its version and variant
    /// are known beforehand; it is drawn as `ident::fresh` says.
    pub fn connect(now: u128) -> (session: Session)
        ensures
            session@ == initial(session@.id, now),
            session@.coherent(),
            nibble_at(uuid_bits(session@.id), 12) == 4,
            8 <= nibble_at(uuid_bits(session@.id), 16) <= 11,
    {
        Session::new(ident::fresh(), now)
    }

    /// The session's identifier, which never changes.
    pub fn id(&self) -> (id: Uuid)
        ensures
            id == self@.id,
    {
        self.id
    }

    /// When the peer was last heard from.
    pub fn last_liveness(&self) -> (at: u128)
        ensures
            at == self@.last_liveness,
    {
        self.hb
    }

    /// Whether the peer has identified itself.
    pub fn is_identified(&self) -> (identified: bool)
        ensures
            identified == self@.identified,
    {
        self.ready
    }

    /// Where the session stands.
    pub fn phase(&self) -> (phase: Phase)
        ensures
            phase == self@.phase,
    {
        self.phase
    }

    /// Whether the session still talks to its peer.
    pub fn is_live(&self) -> (live: bool)
        ensures
            live == self@.live(),
    {
        match self.phase {
            Phase::Connecting => true,
            Phase::AwaitingIdentify => true,
            Phase::Identified => true,
            Phase::Closing => false,
            Phase::Closed => false,
        }
    }

    /// Moves a session on to the phase `Closing`.
    fn close_for(&mut self, reason: CloseCodes) -> (action: Action)
        ensures
            final(self)@ == old(self)@.closing_for(reason).state,
            action@ == old(self)@.closing_for(reason).action,
    {
        proof {
            use_type_invariant(&*self);
        }
        self.phase = Phase::Closing;
        Action::Close(reason)
    }

    /// Moves a session on to the phase `Closed`.
    fn stop(&mut self) -> (action: Action)
        ensures
            final(self)@ == old(self)@.stopped().state,
            action@ == old(self)@.stopped().action,
    {
        proof {
            use_type_invariant(&*self);
        }
        self.phase = Phase::Closed;
        Action::Stop
    }

    /// The connection has been accepted: the session greets its peer.
    pub fn started(&mut self) -> (action: Action)
        ensures
            final(self)@ == on_started(old(self)@).state,
            action@ == on_started(old(self)@).action,
            final(self)@.coherent(),
    {
        proof {
            use_type_invariant(&*self);
        }
        match self.phase {
            Phase::Connecting => {
                let hello = Hello { heartbeat: HEARTBEAT_INTERVAL_SECS, session_id: self.id };
                let payload = Payload::from_op(hello.to_value(), OpCode::Hello).unwrap();
                let text = payload.encode();
                self.phase = Phase::AwaitingIdentify;
                Action::Greet(text)
            },
            _ => Action::Idle,
        }
    }

    /// The identify deadline has passed.
    pub fn identify_deadline(&mut self) -> (action: Action)
        ensures
            final(self)@ == on_deadline(old(self)@).state,
            action@ == on_deadline(old(self)@).action,
            final(self)@.coherent(),
    {
        proof {
            use_type_invariant(&*self);
        }
        if self.is_live() && !self.ready {
            self.close_for(CloseCodes::IdentifyTimeout)
        } else {
            Action::Idle
        }
    }

    /// The heartbeat timer has fired at `now`.
    pub fn hb(&mut self, now: u128) -> (action: Action)
        ensures
            final(self)@ == on_heartbeat(old(self)@, now).state,
            action@ == on_heartbeat(old(self)@, now).action,
            final(self)@.coherent(),
    {
        proof {
            use_type_invariant(&*self);
        }
        if !self.is_live() {
            Action::Idle
        } else if timed_out(self.hb, now) {
            self.close_for(CloseCodes::HeartbeatTimeout)
        } else {
            Action::Ping
        }
    }

    /// The peer has sent an envelope.
    pub fn handle_payload(&mut self, payload: Payload) -> (action: Action)
        ensures
            final(self)@ == on_payload(old(self)@, payload@).state,
            action@ == on_payload(old(self)@, payload@).action,
            final(self)@.coherent(),
    {
        proof {
            use_type_invariant(&*self);
        }
        if !self.is_live() {
            return Action::Idle;
        }
        let identify = match payload.op {
            OpCode::Identify => match &payload.d {
                Some(data) => if self.ready {
                    None
                } else {
                    Identify::from_value(data)
                },
                None => None,
            },
            _ => None,
        };
        match identify {
            Some(identify) => {
                *self = Session { id: self.id, hb: self.hb, ready: true, phase: Phase::Identified };
                Action::Accept(identify)
            },
            None => self.close_for(CloseCodes::InvalidOpCode),
        }
    }

    /// The transport has delivered a message, or failed, at `now`.
    pub fn handle(&mut self, msg: Result<Message, WSError>, now: u128) -> (action: Action)
        ensures
            final(self)@ == on_inbound(old(self)@, msg, now).state,
            action@ == on_inbound(old(self)@, msg, now).action,
            final(self)@.coherent(),
    {
        proof {
            use_type_invariant(&*self);
        }
        let msg = match msg {
            Err(_) => { return self.finished(); },
            Ok(msg) => msg,
        };
        if !self.is_live() {
            return Action::Idle;
        }
        match msg {
            Message::Ping(bytes) => {
                self.hb = now;
                Action::Pong(bytes)
            },
            Message::Pong => {
                self.hb = now;
                Action::Idle
            },
            Message::Nop => Action::Idle,
            Message::Text(text) => match Payload::decode(text.as_str()) {
                Ok(payload) => self.handle_payload(payload),
                Err(_) => self.close_for(CloseCodes::InvalidPacket),
            },
            Message::Close => self.finished(),
            Message::Binary => self.close_for(CloseCodes::InvalidPacket),
            Message::Continuation => self.close_for(CloseCodes::InvalidPacket),
        }
    }

    /// The close that the session asked for has gone out.
    pub fn flushed(&mut self) -> (action: Action)
        ensures
            final(self)@ == on_flushed(old(self)@).state,
            action@ == on_flushed(old(self)@).action,
            final(self)@.coherent(),
    {
        proof {
            use_type_invariant(&*self);
        }
        match self.phase {
            Phase::Closing => self.stop(),
            _ => Action::Idle,
        }
    }

    /// The connection has ended.
    pub fn finished(&mut self) -> (action: Action)
        ensures
            final(self)@ == on_finished(old(self)@).state,
            action@ == on_finished(old(self)@).action,
            final(self)@.coherent(),
    {
        proof {
            use_type_invariant(&*self);
        }
        match self.phase {
            Phase::Closed => Action::Idle,
            _ => self.stop(),
        }
    }

    /// Hands an event to the session: the session moves on as `next` says,
    /// and the action of `next` is returned.
    pub fn step(&mut self, event: Event) -> (action: Action)
        ensures
            final(self)@ == next(old(self)@, event).state,
            action@ == next(old(self)@, event).action,
            final(self)@.coherent(),
    {
        match event {
            Event::Started => self.started(),
            Event::Inbound(delivery, now) => self.handle(delivery, now),
            Event::HeartbeatTick(now) => self.hb(now),
            Event::IdentifyDeadline => self.identify_deadline(),
            Event::Flushed => self.flushed(),
            Event::Finished => self.finished(),
        }
    }
}

/// Where a session is after a run of events, one after the other.
pub open spec fn run(s: SessionState, events: Seq<Event>) -> SessionState
    decreases events.len(),
{
    if events.len() == 0 {
        s
    } else {
        run(next(s, events[0]).state, events.subrange(1, events.len() as int))
    }
}

/// Whether an identification is accepted somewhere in a run of events.
pub open spec fn accepts_during(s: SessionState, events: Seq<Event>) -> bool
    decreases events.len(),
{
    if events.len() == 0 {
        false
    } else {
        next(s, events[0]).action is Accept || accepts_during(
            next(s, events[0]).state,
            events.subrange(1, events.len() as int),
        )
    }
}

/// No event changes a session's identifier or breaks the tie between its
/// phase and its mark of identification. The mark is never taken back,
/// and it is set by nothing but the acceptance of an identification.
pub proof fn every_transition_keeps_the_session_sound(s: SessionState, event: Event)
    requires
        s.coherent(),
    ensures
        next(s, event).state.coherent(),
        next(s, event).state.id == s.id,
        s.identified ==> next(s, event).state.identified,
        next(s, event).action is Accept <==> !s.identified && next(s, event).state.identified,
{
}

/// A live session that has not been identified when the deadline passes
/// is closed with code 4009; an identified one is left alone.
pub proof fn deadline_closes_the_unidentified(s: SessionState)
    requires
        s.live(),
    ensures
        !s.identified ==> on_deadline(s) == s.closing_for(CloseCodes::IdentifyTimeout),
        s.identified ==> on_deadline(s) == s.unmoved(),
        code_of(CloseCodes::IdentifyTimeout) == 4009,
        s.closing_for(CloseCodes::IdentifyTimeout).state.phase == Phase::Closing,
{
}

/// However many events reach a session, it stays unidentified as long as
/// no identification is accepted among them; if it is still live when the
/// deadline passes, it is then closed with code 4009.
pub proof fn no_identify_means_identify_timeout(s: SessionState, events: Seq<Event>)
    requires
        s.coherent(),
        !s.identified,
        !accepts_during(s, events),
    ensures
        run(s, events).coherent(),
        !run(s, events).identified,
        run(s, events).live() ==> next(run(s, events), Event::IdentifyDeadline).action
            == ActionView::Close(CloseCodes::IdentifyTimeout),
    decreases events.len(),
{
    if events.len() > 0 {
        every_transition_keeps_the_session_sound(s, events[0]);
        no_identify_means_identify_timeout(
            next(s, events[0]).state,
            events.subrange(1, events.len() as int),
        );
    }
}

/// Once a session is closing or closed, nothing brings it back: a message,
/// a timer or a second start leaves it as it is and asks for nothing. The
/// only step left is the one from `Closing` to `Closed`, and a closed
/// session does not move at all.
pub proof fn the_end_is_final(s: SessionState, event: Event)
    requires
        !s.live(),
    ensures
        !next(s, event).state.live(),
        next(s, event).action is Idle || next(s, event).action is Stop,
        s.phase == Phase::Closed ==> next(s, event) == s.unmoved(),
        event is Started || event is HeartbeatTick || event is IdentifyDeadline || (event matches Event::Inbound(
            delivery,
            _,
        ) && delivery is Ok) ==> next(s, event) == s.unmoved(),
{
}

/// A session that is no longer live is not live after any run of events.
pub proof fn the_end_lasts(s: SessionState, events: Seq<Event>)
    requires
        !s.live(),
    ensures
        !run(s, events).live(),
    decreases events.len(),
{
    if events.len() > 0 {
        the_end_is_final(s, events[0]);
        the_end_lasts(next(s, events[0]).state, events.subrange(1, events.len() as int));
    }
}

/// At a heartbeat tick, a live session whose peer was last heard from
/// more than ten seconds ago is closed with code 4008, and no probe is
/// sent; otherwise the peer is probed and the session stays as it is.
pub proof fn silence_closes_without_a_probe(s: SessionState, now: u128)
    requires
        s.live(),
    ensures
        CLIENT_TIMEOUT_NANOS == CLIENT_TIMEOUT_SECS * 1_000_000_000,
        now - s.last_liveness > CLIENT_TIMEOUT_NANOS ==> on_heartbeat(s, now) == s.closing_for(
            CloseCodes::HeartbeatTimeout,
        ) && !(on_heartbeat(s, now).action is Ping),
        now - s.last_liveness <= CLIENT_TIMEOUT_NANOS ==> on_heartbeat(s, now).state == s
            && on_heartbeat(s, now).action is Ping,
        code_of(CloseCodes::HeartbeatTimeout) == 4008,
{
}

/// The first `Identify` with a token identifies a live session, which
/// stays live; any `Identify` after it closes the session with code 4001.
pub proof fn identify_is_accepted_once(s: SessionState, first: Envelope, second: Envelope)
    requires
        s.live(),
        !s.identified,
        first.op == OpCode::Identify,
        first.d is Some && token_of(first.d.unwrap()) is Some,
        second.op == OpCode::Identify,
    ensures
        on_payload(s, first).state.identified,
        on_payload(s, first).state.phase == Phase::Identified,
        on_payload(s, first).action == ActionView::Accept(token_of(first.d.unwrap()).unwrap()),
        on_payload(on_payload(s, first).state, second) == on_payload(s, first).state.closing_for(
            CloseCodes::InvalidOpCode,
        ),
        code_of(CloseCodes::InvalidOpCode) == 4001,
{
}

/// An envelope with any op code but `Identify` closes a live session with
/// code 4001, whether or not the session has been identified.
pub proof fn other_opcodes_close(s: SessionState, envelope: Envelope)
    requires
        s.live(),
        envelope.op != OpCode::Identify,
    ensures
        on_payload(s, envelope) == s.closing_for(CloseCodes::InvalidOpCode),
        code_of(CloseCodes::InvalidOpCode) == 4001,
{
}

/// When the peer closes the connection or the transport fails, a live
/// session goes straight to `Closed`: it never passes through `Closing`,
/// and no close with a code of its own is asked for.
pub proof fn transport_close_skips_closing(s: SessionState, failure: WSError, now: u128)
    requires
        s.live(),
    ensures
        on_inbound(s, Ok(Message::Close), now) == s.stopped(),
        on_inbound(s, Err(failure), now) == s.stopped(),
        on_finished(s) == s.stopped(),
        s.stopped().state.phase == Phase::Closed,
        s.stopped().action == ActionView::Stop,
{
}

/// A text that stands for an envelope is handled as that envelope, and a
/// probe or its reply moves nothing but the time at which the peer was
/// last heard from.
pub proof fn inbound_is_dispatched(s: SessionState, text: String, envelope: Envelope, bytes: Bytes, now: u128)
    requires
        s.live(),
    ensures
        decoded(text@) == Ok::<Envelope, Seq<char>>(envelope) ==> on_inbound(s, Ok(Message::Text(text)), now)
            == on_payload(s, envelope),
        decoded(text@) is Err ==> on_inbound(s, Ok(Message::Text(text)), now) == s.closing_for(
            CloseCodes::InvalidPacket,
        ),
        on_inbound(s, Ok(Message::Ping(bytes)), now).state == s.heard_at(now),
        on_inbound(s, Ok(Message::Pong), now).state == s.heard_at(now),
        code_of(CloseCodes::InvalidPacket) == 4002,
{
}

} // verus!
