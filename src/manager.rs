//! The gateway connection manager: handshake, receive routing, heartbeat
//! supervision and resumption, as a state machine driven by the events that
//! the transport hands in. The transport performs the actions it returns.
use vstd::prelude::*;

use crate::codec::{frame_is_envelope, key_d, op_member, parse, seq_member, type_member, Envelope};
use crate::events::{decode_event, decoded_as, Event};
use crate::heartbeat::{tick_spec, Beat, Heartbeat};
use crate::jsonval::{as_bool, as_u64, bool_at, member, u64_at};
use crate::opcode::{code_of, opcode_of, OpCode};

verus! {

#[derive(Clone, Copy, Debug, PartialEq, Eq, Structural)]
pub enum Phase {
    /// A socket is being opened; no frame is processed yet.
    Connecting,
    /// The socket is open; the first frame must be a Hello.
    Handshaking,
    Connected,
    /// A heartbeat went unacknowledged; a new socket is being opened.
    Degraded,
    /// The server asked to resume; a new socket is being opened.
    Resuming,
    Terminated,
}

#[derive(Clone, Copy, Debug, PartialEq, Eq, Structural)]
pub enum GatewayError {
    /// The first frame on a socket was not a Hello with an interval.
    HandshakeViolation,
    /// The socket closed with no recoverable signal.
    TransportClosed,
}

/// A decoded frame, as the manager routes it.
pub enum Signal {
    Hello { interval: Option<u64> },
    /// `event` is `None` when the body could not be decoded.
    Dispatch { sequence: u64, event: Option<Event> },
    HeartbeatRequest,
    HeartbeatAck,
    Reconnect,
    InvalidSession { resumable: bool },
    Unknown { code: u64 },
}

/// What the transport is asked to do.
pub enum Action {
    SendIdentify { token: String, intents: u32 },
    SendResume { token: String, session_id: String, sequence: Option<u64> },
    SendHeartbeat { sequence: Option<u64> },
    /// Hand the event to the user's handler as a task of its own.
    Deliver(Event),
    /// Close the socket and open a new one at `url`.
    Reopen { url: String },
    Fail(GatewayError),
}

pub struct Session {
    pub token: String,
    pub last_sequence: Option<u64>,
    pub session_id: Option<String>,
    pub resume_url: Option<String>,
    pub heartbeat_interval: Option<u64>,
    pub last_ack_received: bool,
}

pub struct Manager {
    pub phase: Phase,
    pub session: Session,
    pub intents: u32,
    pub gateway_url: String,
    pub heartbeat: Heartbeat,
}

/// A session can be resumed when both its id and its resume URL are known.
pub open spec fn can_resume(s: Session) -> bool {
    s.session_id.is_some() && s.resume_url.is_some()
}

/// Where a new socket is opened: the resume URL, else the default gateway.
pub open spec fn reopen_url(m: Manager) -> String {
    match m.session.resume_url {
        Some(u) => u,
        None => m.gateway_url,
    }
}

/// The frame that answers a Hello: Resume for a resumable session, else Identify.
pub open spec fn handshake_frame(m: Manager) -> Action {
    if can_resume(m.session) {
        Action::SendResume {
            token: m.session.token,
            session_id: m.session.session_id.unwrap(),
            sequence: m.session.last_sequence,
        }
    } else {
        Action::SendIdentify { token: m.session.token, intents: m.intents }
    }
}

/// The session after a dispatch: the sequence number is recorded, and a
/// `READY` event gives the session id and resume URL.
pub open spec fn after_dispatch(s: Session, sequence: u64, event: Option<Event>) -> Session {
    match event {
        Some(Event::Ready(r)) => Session {
            last_sequence: Some(sequence),
            session_id: Some(r.session_id),
            resume_url: Some(r.resume_gateway_url),
            ..s
        },
        _ => Session { last_sequence: Some(sequence), ..s },
    }
}

/// Leaves the Connected phase for a new socket, stopping the heartbeat first.
pub open spec fn leave_for(m: Manager, phase: Phase) -> (Manager, Seq<Action>) {
    (
        Manager { phase, heartbeat: Heartbeat { running: false, ..m.heartbeat }, ..m },
        seq![Action::Reopen { url: reopen_url(m) }],
    )
}

/// What one routed frame does to the manager, and the actions it asks for.
pub open spec fn signal_spec(m: Manager, sig: Signal, now: u64) -> (Manager, Seq<Action>) {
    match m.phase {
        Phase::Handshaking => match sig {
            Signal::Hello { interval: Some(t) } => (
                Manager {
                    phase: Phase::Connected,
                    session: Session {
                        heartbeat_interval: Some(t),
                        last_ack_received: true,
                        ..m.session
                    },
                    heartbeat: Heartbeat { running: true, interval: t, due: now, awaiting_ack: false },
                    ..m
                },
                seq![handshake_frame(m)],
            ),
            _ => (
                Manager { phase: Phase::Terminated, ..m },
                seq![Action::Fail(GatewayError::HandshakeViolation)],
            ),
        },
        Phase::Connected => match sig {
            Signal::Dispatch { sequence, event } => (
                Manager { session: after_dispatch(m.session, sequence, event), ..m },
                match event {
                    Some(e) => seq![Action::Deliver(e)],
                    None => seq![],
                },
            ),
            Signal::HeartbeatAck => (
                Manager {
                    session: Session { last_ack_received: true, ..m.session },
                    heartbeat: Heartbeat { awaiting_ack: false, ..m.heartbeat },
                    ..m
                },
                seq![],
            ),
            Signal::HeartbeatRequest => (
                m,
                seq![Action::SendHeartbeat { sequence: m.session.last_sequence }],
            ),
            Signal::Reconnect => leave_for(m, Phase::Resuming),
            Signal::InvalidSession { resumable } => if resumable {
                leave_for(m, Phase::Resuming)
            } else {
                leave_for(
                    Manager {
                        session: Session { session_id: None, resume_url: None, ..m.session },
                        ..m
                    },
                    Phase::Connecting,
                )
            },
            _ => (m, seq![]),
        },
        _ => (m, seq![]),
    }
}

/// What a clock tick does: heartbeats are sent only while connected, and a
/// missed acknowledgement forces a reconnect.
pub open spec fn tick_manager_spec(m: Manager, now: u64) -> (Manager, Seq<Action>) {
    if m.phase != Phase::Connected {
        (m, seq![])
    } else {
        let (b, h) = tick_spec(m.heartbeat, now);
        match b {
            Beat::Idle => (Manager { heartbeat: h, ..m }, seq![]),
            Beat::Send => (
                Manager {
                    heartbeat: h,
                    session: Session { last_ack_received: false, ..m.session },
                    ..m
                },
                seq![Action::SendHeartbeat { sequence: m.session.last_sequence }],
            ),
            Beat::Missed => (
                Manager { phase: Phase::Degraded, heartbeat: h, ..m },
                seq![Action::Reopen { url: reopen_url(m) }],
            ),
        }
    }
}

/// A socket has opened: a manager waiting for one starts its handshake.
pub open spec fn opened_spec(m: Manager) -> Manager {
    match m.phase {
        Phase::Connecting | Phase::Degraded | Phase::Resuming => Manager {
            phase: Phase::Handshaking,
            ..m
        },
        _ => m,
    }
}

/// The signal that the frame text `raw` holds, routed by its operation code:
/// a dispatch carries its sequence number and the event decoded from `d`
/// under its name, a Hello its `d.heartbeat_interval`, an InvalidSession
/// whether `d` is `true`; codes that only a client sends count as unknown.
pub open spec fn signal_of_frame(raw: Seq<char>, sig: Signal) -> bool {
    let d = seq![key_d()];
    match opcode_of(op_member(raw).unwrap()) {
        OpCode::Dispatch => sig matches Signal::Dispatch { sequence, event } && sequence
            == seq_member(raw).unwrap() && decoded_as(type_member(raw).unwrap(), raw, d, event),
        OpCode::Hello => sig == Signal::Hello {
            interval: u64_at(raw, d.push("heartbeat_interval"@)),
        },
        OpCode::HeartbeatAck => sig is HeartbeatAck,
        OpCode::Heartbeat => sig is HeartbeatRequest,
        OpCode::Reconnect => sig is Reconnect,
        OpCode::InvalidSession => sig == Signal::InvalidSession {
            resumable: bool_at(raw, d) == Some(true),
        },
        op => sig == Signal::Unknown { code: code_of(op) },
    }
}

/// Routes one decoded frame to a signal, decoding a dispatch body by its name.
pub fn classify(env: &Envelope) -> (r: Signal)
    requires
        env.decoded_from(env.raw@),
    ensures
        signal_of_frame(env.raw@, r),
{
    match env.op {
        OpCode::Dispatch => {
            let sequence = match env.sequence {
                Some(s) => s,
                None => 0,
            };
            let event = match &env.event_type {
                Some(name) => decode_event(name, &env.data),
                None => None,
            };
            Signal::Dispatch { sequence, event }
        },
        OpCode::Hello => Signal::Hello { interval: as_u64(&member(&env.data, "heartbeat_interval")) },
        OpCode::HeartbeatAck => Signal::HeartbeatAck,
        OpCode::Heartbeat => Signal::HeartbeatRequest,
        OpCode::Reconnect => Signal::Reconnect,
        OpCode::InvalidSession => Signal::InvalidSession {
            resumable: match as_bool(&env.data) {
                Some(b) => b,
                None => false,
            },
        },
        OpCode::Identify => Signal::Unknown { code: 2 },
        OpCode::Resume => Signal::Unknown { code: 6 },
        OpCode::Unknown(code) => Signal::Unknown { code },
    }
}



/// After the server asks to reconnect a resumable session, the manager opens
/// a socket at the resume URL and sends nothing on the old one, whatever
/// ticks or frames come meanwhile; on the new socket, the first frame it
/// sends answers the Hello, and is a Resume carrying the session's id and its
/// last observed sequence number.
pub proof fn lemma_reconnect_resumes(m: Manager, t1: u64, t2: u64, interval: u64)
    requires
        m.phase == Phase::Connected,
        can_resume(m.session),
    ensures
        signal_spec(m, Signal::Reconnect, t1).1 == seq![
            Action::Reopen { url: m.session.resume_url.unwrap() },
        ],
        forall|now: u64|
            #[trigger] tick_manager_spec(signal_spec(m, Signal::Reconnect, t1).0, now).1 == Seq::<
                Action,
            >::empty(),
        forall|sig: Signal, now: u64|
            #[trigger] signal_spec(signal_spec(m, Signal::Reconnect, t1).0, sig, now).1 == Seq::<
                Action,
            >::empty(),
        signal_spec(
            opened_spec(signal_spec(m, Signal::Reconnect, t1).0),
            Signal::Hello { interval: Some(interval) },
            t2,
        ).1 == seq![
            Action::SendResume {
                token: m.session.token,
                session_id: m.session.session_id.unwrap(),
                sequence: m.session.last_sequence,
            },
        ],
{
    let m1 = signal_spec(m, Signal::Reconnect, t1).0;
    assert(m1.phase == Phase::Resuming);
    assert(m1.session == m.session);
    assert forall|sig: Signal, now: u64|
        #[trigger] signal_spec(m1, sig, now).1 == Seq::<Action>::empty() by {}
}

/// A Hello on a fresh session is answered by exactly one Identify, and no
/// heartbeat has gone out by then: the heartbeat is started with nothing
/// sent, so the first heartbeat frame can only follow the Identify.
pub proof fn lemma_identify_before_heartbeat(m: Manager, interval: u64, now: u64)
    requires
        m.phase == Phase::Handshaking,
        !can_resume(m.session),
    ensures
        signal_spec(m, Signal::Hello { interval: Some(interval) }, now).1 == seq![
            Action::SendIdentify { token: m.session.token, intents: m.intents },
        ],
        signal_spec(m, Signal::Hello { interval: Some(interval) }, now).0.phase == Phase::Connected,
        !signal_spec(m, Signal::Hello { interval: Some(interval) }, now).0.heartbeat.awaiting_ack,
        tick_manager_spec(signal_spec(m, Signal::Hello { interval: Some(interval) }, now).0, now).1
            == seq![Action::SendHeartbeat { sequence: m.session.last_sequence }],
{
}

/// A dispatch while connected records its sequence number and hands its
/// event on, in the same step and whatever the handler later does.
pub proof fn lemma_dispatch_records_sequence(m: Manager, sequence: u64, event: Event, now: u64)
    requires
        m.phase == Phase::Connected,
    ensures
        signal_spec(m, Signal::Dispatch { sequence, event: Some(event) }, now).0.session.last_sequence
            == Some(sequence),
        signal_spec(m, Signal::Dispatch { sequence, event: Some(event) }, now).1 == seq![
            Action::Deliver(event),
        ],
        signal_spec(m, Signal::Dispatch { sequence, event: Some(event) }, now).0.phase
            == Phase::Connected,
{
}

/// The same event dispatched twice is handed on twice, once per frame: the
/// manager neither merges nor drops a repeated event.
pub proof fn lemma_repeated_dispatch_delivers_twice(m: Manager, sequence: u64, event: Event, now: u64)
    requires
        m.phase == Phase::Connected,
    ensures
        ({
            let (m1, a1) = signal_spec(m, Signal::Dispatch { sequence, event: Some(event) }, now);
            let (m2, a2) = signal_spec(m1, Signal::Dispatch { sequence, event: Some(event) }, now);
            a1 + a2 == seq![Action::Deliver(event), Action::Deliver(event)]
        }),
{
    let (m1, a1) = signal_spec(m, Signal::Dispatch { sequence, event: Some(event) }, now);
    assert(m1.phase == Phase::Connected);
    let (m2, a2) = signal_spec(m1, Signal::Dispatch { sequence, event: Some(event) }, now);
    assert(a1 + a2 =~= seq![Action::Deliver(event), Action::Deliver(event)]);
}

/// While no acknowledgement comes, a connected manager that has sent a
/// heartbeat at `sent` forces a reconnect on the first tick at or after
/// `sent + interval`, and on no earlier tick.
pub proof fn lemma_missed_ack_degrades(m: Manager, sent: u64, now: u64)
    requires
        m.phase == Phase::Connected,
        m.heartbeat.running,
        m.heartbeat.awaiting_ack,
        m.heartbeat.due as int == sent as int + m.heartbeat.interval as int,
    ensures
        (tick_manager_spec(m, now).0.phase == Phase::Degraded) == (now as int >= sent as int
            + m.heartbeat.interval as int),
        now as int >= sent as int + m.heartbeat.interval as int ==> tick_manager_spec(m, now).1
            == seq![Action::Reopen { url: reopen_url(m) }],
        now as int >= sent as int + m.heartbeat.interval as int ==> !tick_manager_spec(
            m,
            now,
        ).0.heartbeat.running,
{
}

impl Manager {
    /// A manager for one session, before any socket is open.
    pub fn new(token: String, intents: u32, gateway_url: String) -> (r: Manager)
        ensures
            r.phase == Phase::Connecting,
            r.session == (Session {
                token,
                last_sequence: None,
                session_id: None,
                resume_url: None,
                heartbeat_interval: None,
                last_ack_received: false,
            }),
            r.intents == intents,
            r.gateway_url == gateway_url,
            !r.heartbeat.running,
    {
        Manager {
            phase: Phase::Connecting,
            session: Session {
                token,
                last_sequence: None,
                session_id: None,
                resume_url: None,
                heartbeat_interval: None,
                last_ack_received: false,
            },
            intents,
            gateway_url,
            heartbeat: Heartbeat::stopped(),
        }
    }

    fn resume_target(&self) -> (r: String)
        ensures
            r == reopen_url(*self),
    {
        match &self.session.resume_url {
            Some(u) => u.clone(),
            None => self.gateway_url.clone(),
        }
    }

    fn leave(&mut self, phase: Phase) -> (r: Vec<Action>)
        ensures
            (*final(self), r@) == leave_for(*old(self), phase),
    {
        let url = self.resume_target();
        self.heartbeat.stop();
        self.phase = phase;
        vec![Action::Reopen { url }]
    }

    /// A new socket has opened.
    pub fn on_opened(&mut self)
        ensures
            *final(self) == opened_spec(*old(self)),
    {
        match self.phase {
            Phase::Connecting | Phase::Degraded | Phase::Resuming => {
                self.phase = Phase::Handshaking;
            },
            _ => {},
        }
    }

    /// Routes one frame received at time `now`.
    pub fn on_signal(&mut self, sig: Signal, now: u64) -> (r: Vec<Action>)
        ensures
            (*final(self), r@) == signal_spec(*old(self), sig, now),
    {
        match self.phase {
            Phase::Handshaking => match sig {
                Signal::Hello { interval: Some(t) } => {
                    let frame = if self.session.session_id.is_some()
                        && self.session.resume_url.is_some() {
                        Action::SendResume {
                            token: self.session.token.clone(),
                            session_id: match &self.session.session_id {
                                Some(id) => id.clone(),
                                None => String::new(),
                            },
                            sequence: self.session.last_sequence,
                        }
                    } else {
                        Action::SendIdentify { token: self.session.token.clone(), intents: self.intents }
                    };
                    self.phase = Phase::Connected;
                    self.session.heartbeat_interval = Some(t);
                    self.session.last_ack_received = true;
                    self.heartbeat = Heartbeat::start(t, now);
                    vec![frame]
                },
                _ => {
                    self.phase = Phase::Terminated;
                    vec![Action::Fail(GatewayError::HandshakeViolation)]
                },
            },
            Phase::Connected => match sig {
                Signal::Dispatch { sequence, event } => {
                    self.session.last_sequence = Some(sequence);
                    match event {
                        Some(e) => {
                            if let Event::Ready(ready) = &e {
                                self.session.session_id = Some(ready.session_id.clone());
                                self.session.resume_url = Some(ready.resume_gateway_url.clone());
                            }
                            vec![Action::Deliver(e)]
                        },
                        None => Vec::new(),
                    }
                },
                Signal::HeartbeatAck => {
                    self.session.last_ack_received = true;
                    self.heartbeat.acknowledge();
                    Vec::new()
                },
                Signal::HeartbeatRequest => {
                    vec![Action::SendHeartbeat { sequence: self.session.last_sequence }]
                },
                Signal::Reconnect => self.leave(Phase::Resuming),
                Signal::InvalidSession { resumable } => {
                    if resumable {
                        self.leave(Phase::Resuming)
                    } else {
                        self.session.session_id = None;
                        self.session.resume_url = None;
                        self.leave(Phase::Connecting)
                    }
                },
                _ => Vec::new(),
            },
            _ => Vec::new(),
        }
    }

    /// Advances the heartbeat to time `now`.
    pub fn on_tick(&mut self, now: u64) -> (r: Vec<Action>)
        ensures
            (*final(self), r@) == tick_manager_spec(*old(self), now),
    {
        if self.phase != Phase::Connected {
            return Vec::new();
        }
        let url = self.resume_target();
        match self.heartbeat.tick(now) {
            Beat::Idle => Vec::new(),
            Beat::Send => {
                self.session.last_ack_received = false;
                vec![Action::SendHeartbeat { sequence: self.session.last_sequence }]
            },
            Beat::Missed => {
                self.phase = Phase::Degraded;
                vec![Action::Reopen { url }]
            },
        }
    }

    /// The socket closed with no recoverable signal: the connection ends with
    /// an error, unless it had already ended.
    pub fn on_closed(&mut self) -> (r: Vec<Action>)
        ensures
            final(self).phase == Phase::Terminated,
            !final(self).heartbeat.running,
            final(self).session == old(self).session,
            old(self).phase == Phase::Terminated ==> r@ == Seq::<Action>::empty(),
            old(self).phase != Phase::Terminated ==> r@ == seq![
                Action::Fail(GatewayError::TransportClosed),
            ],
    {
        self.heartbeat.stop();
        if self.phase == Phase::Terminated {
            Vec::new()
        } else {
            self.phase = Phase::Terminated;
            vec![Action::Fail(GatewayError::TransportClosed)]
        }
    }

    /// Ends the connection on request; nothing is processed after this.
    pub fn shutdown(&mut self)
        ensures
            final(self).phase == Phase::Terminated,
            !final(self).heartbeat.running,
            final(self).session == old(self).session,
    {
        self.heartbeat.stop();
        self.phase = Phase::Terminated;
    }

    /// Handles one text frame received at time `now`. A frame that does not
    /// decode to an envelope is skipped, leaving the manager as it was,
    /// except as the first frame of a handshake, where it is fatal.
    pub fn on_frame(&mut self, raw: &str, now: u64) -> (r: Vec<Action>)
        ensures
            !frame_is_envelope(raw@) && old(self).phase == Phase::Handshaking ==> *final(self)
                == (Manager { phase: Phase::Terminated, ..*old(self) }) && r@ == seq![
                Action::Fail(GatewayError::HandshakeViolation),
            ],
            !frame_is_envelope(raw@) && old(self).phase != Phase::Handshaking ==> *final(self)
                == *old(self) && r@ == Seq::<Action>::empty(),
            frame_is_envelope(raw@) ==> exists|sig: Signal|
                #[trigger] signal_of_frame(raw@, sig) && (*final(self), r@) == signal_spec(
                    *old(self),
                    sig,
                    now,
                ),
    {
        match parse(raw) {
            None => {
                if self.phase == Phase::Handshaking {
                    self.phase = Phase::Terminated;
                    vec![Action::Fail(GatewayError::HandshakeViolation)]
                } else {
                    Vec::new()
                }
            },
            Some(env) => {
                let sig = classify(&env);
                let ghost g = sig;
                let r = self.on_signal(sig, now);
                assert(signal_of_frame(raw@, g));
                r
            },
        }
    }
}

} // verus!
