use descord::codec::parse;
use descord::events::Event;
use descord::heartbeat::{Beat, Heartbeat};
use descord::manager::{Action, GatewayError, Manager, Phase};
use descord::opcode::OpCode;

const HELLO: &str = r#"{"op":10,"d":{"heartbeat_interval":45000},"s":null,"t":null}"#;
const READY: &str = r#"{"op":0,"s":1,"t":"READY","d":{"session_type":"normal","session_id":"abc123","resume_gateway_url":"wss://resume.example","application":{"id":"42","flags":0}}}"#;
const MESSAGE: &str = r#"{"op":0,"s":7,"t":"MESSAGE_CREATE","d":{"content":"!ping","channel_id":"c1","id":"m1","author":{"id":"u1","username":"alice"}}}"#;

fn connected() -> Manager {
    let mut m = Manager::new("tok".to_string(), 513, "wss://gateway.example".to_string());
    m.on_opened();
    let actions = m.on_frame(HELLO, 0);
    assert_eq!(actions.len(), 1);
    m
}

#[test]
fn opcodes_map_both_ways() {
    assert_eq!(OpCode::from_code(0), OpCode::Dispatch);
    assert_eq!(OpCode::from_code(10), OpCode::Hello);
    assert_eq!(OpCode::from_code(11), OpCode::HeartbeatAck);
    assert_eq!(OpCode::from_code(42), OpCode::Unknown(42));
    assert_eq!(OpCode::InvalidSession.code(), 9);
    assert_eq!(OpCode::Unknown(42).code(), 42);
}

#[test]
fn dispatch_frame_keeps_sequence_and_name() {
    let env = parse(MESSAGE).expect("dispatch decodes");
    assert_eq!(env.op, OpCode::Dispatch);
    assert_eq!(env.sequence, Some(7));
    assert_eq!(env.event_type.as_deref(), Some("MESSAGE_CREATE"));
    assert_eq!(env.raw, MESSAGE);
}

#[test]
fn non_dispatch_frame_drops_sequence_and_name() {
    let env = parse(r#"{"op":11,"s":5,"t":"X","d":null}"#).expect("ack decodes");
    assert_eq!(env.op, OpCode::HeartbeatAck);
    assert_eq!(env.sequence, None);
    assert_eq!(env.event_type, None);
    let hello = parse(HELLO).expect("hello decodes");
    assert_eq!(hello.op, OpCode::Hello);
    assert_eq!(hello.sequence, None);
    assert_eq!(hello.event_type, None);
}

#[test]
fn unknown_opcode_is_kept() {
    let env = parse(r#"{"op":99,"d":null}"#).expect("unknown code decodes");
    assert_eq!(env.op, OpCode::Unknown(99));
}

#[test]
fn malformed_frames_give_nothing() {
    assert!(parse("not json").is_none());
    assert!(parse("").is_none());
    assert!(parse(r#"{"op":"#).is_none());
    assert!(parse(r#"{"s":1,"d":null}"#).is_none());
    assert!(parse(r#"{"op":0,"d":{}}"#).is_none());
    assert!(parse(r#"{"op":0,"s":3,"d":{}}"#).is_none());
}

#[test]
fn malformed_frame_leaves_manager_running() {
    let mut m = connected();
    let actions = m.on_frame("{{garbage", 10);
    assert!(actions.is_empty());
    assert_eq!(m.phase, Phase::Connected);
    let actions = m.on_frame(MESSAGE, 11);
    assert_eq!(actions.len(), 1);
}

#[test]
fn hello_sends_one_identify_before_any_heartbeat() {
    let mut m = Manager::new("tok".to_string(), 513, "wss://gateway.example".to_string());
    assert_eq!(m.phase, Phase::Connecting);
    m.on_opened();
    assert_eq!(m.phase, Phase::Handshaking);
    let actions = m.on_frame(HELLO, 1000);
    assert_eq!(actions.len(), 1);
    match &actions[0] {
        Action::SendIdentify { token, intents } => {
            assert_eq!(token, "tok");
            assert_eq!(*intents, 513);
        }
        _ => panic!("expected Identify"),
    }
    assert_eq!(m.phase, Phase::Connected);
    assert_eq!(m.session.heartbeat_interval, Some(45000));
    let beats = m.on_tick(1000);
    assert_eq!(beats.len(), 1);
    assert!(matches!(beats[0], Action::SendHeartbeat { sequence: None }));
}

#[test]
fn message_create_sets_last_sequence() {
    let mut m = connected();
    let actions = m.on_frame(MESSAGE, 5);
    assert_eq!(m.session.last_sequence, Some(7));
    assert_eq!(actions.len(), 1);
    match &actions[0] {
        Action::Deliver(Event::MessageCreate(msg)) => {
            assert_eq!(msg.content, "!ping");
            assert_eq!(msg.channel_id, "c1");
            assert_eq!(msg.message_id, "m1");
            assert_eq!(msg.author.username, "alice");
            assert!(!msg.tts);
            assert_eq!(msg.flags, 0);
        }
        _ => panic!("expected a message-create event"),
    }
}

#[test]
fn unnamed_event_is_unimplemented() {
    let mut m = connected();
    let actions = m.on_frame(r#"{"op":0,"s":3,"t":"TYPING_START","d":{}}"#, 5);
    assert_eq!(m.session.last_sequence, Some(3));
    match &actions[0] {
        Action::Deliver(Event::Unimplemented(name)) => assert_eq!(name, "TYPING_START"),
        _ => panic!("expected an unimplemented event"),
    }
}

#[test]
fn undecodable_body_still_records_sequence() {
    let mut m = connected();
    let actions = m.on_frame(r#"{"op":0,"s":4,"t":"MESSAGE_CREATE","d":{"content":"x"}}"#, 5);
    assert!(actions.is_empty());
    assert_eq!(m.session.last_sequence, Some(4));
}

#[test]
fn same_message_twice_is_delivered_twice() {
    let mut m = connected();
    let first = m.on_frame(MESSAGE, 5);
    let second = m.on_frame(MESSAGE, 6);
    assert_eq!(first.len(), 1);
    assert_eq!(second.len(), 1);
    assert!(matches!(first[0], Action::Deliver(Event::MessageCreate(_))));
    assert!(matches!(second[0], Action::Deliver(Event::MessageCreate(_))));
}

#[test]
fn reconnect_resumes_with_session_and_sequence() {
    let mut m = connected();
    m.on_frame(READY, 1);
    assert_eq!(m.session.session_id.as_deref(), Some("abc123"));
    m.on_frame(MESSAGE, 2);
    let actions = m.on_frame(r#"{"op":7,"d":null}"#, 3);
    assert_eq!(m.phase, Phase::Resuming);
    match &actions[..] {
        [Action::Reopen { url }] => assert_eq!(url, "wss://resume.example"),
        _ => panic!("expected one Reopen"),
    }
    assert!(m.on_tick(100_000).is_empty());
    m.on_opened();
    let actions = m.on_frame(HELLO, 4);
    match &actions[..] {
        [Action::SendResume { token, session_id, sequence }] => {
            assert_eq!(token, "tok");
            assert_eq!(session_id, "abc123");
            assert_eq!(*sequence, Some(7));
        }
        _ => panic!("expected one Resume"),
    }
}

#[test]
fn reconnect_without_session_identifies_again() {
    let mut m = connected();
    let actions = m.on_frame(r#"{"op":7,"d":null}"#, 3);
    match &actions[..] {
        [Action::Reopen { url }] => assert_eq!(url, "wss://gateway.example"),
        _ => panic!("expected one Reopen"),
    }
    m.on_opened();
    let actions = m.on_frame(HELLO, 4);
    assert!(matches!(actions[..], [Action::SendIdentify { .. }]));
}

#[test]
fn invalid_session_not_resumable_clears_session() {
    let mut m = connected();
    m.on_frame(READY, 1);
    let actions = m.on_frame(r#"{"op":9,"d":false}"#, 2);
    assert_eq!(m.phase, Phase::Connecting);
    assert_eq!(m.session.session_id, None);
    assert_eq!(m.session.resume_url, None);
    match &actions[..] {
        [Action::Reopen { url }] => assert_eq!(url, "wss://gateway.example"),
        _ => panic!("expected one Reopen"),
    }
    m.on_opened();
    let actions = m.on_frame(HELLO, 4);
    assert!(matches!(actions[..], [Action::SendIdentify { .. }]));
}

#[test]
fn invalid_session_resumable_keeps_session() {
    let mut m = connected();
    m.on_frame(READY, 1);
    let actions = m.on_frame(r#"{"op":9,"d":true}"#, 2);
    assert_eq!(m.phase, Phase::Resuming);
    assert_eq!(m.session.session_id.as_deref(), Some("abc123"));
    assert!(matches!(actions[..], [Action::Reopen { .. }]));
}

#[test]
fn first_frame_other_than_hello_is_fatal() {
    let mut m = Manager::new("tok".to_string(), 1, "wss://gateway.example".to_string());
    m.on_opened();
    let actions = m.on_frame(MESSAGE, 0);
    assert_eq!(m.phase, Phase::Terminated);
    assert!(matches!(actions[..], [Action::Fail(GatewayError::HandshakeViolation)]));
    let mut m = Manager::new("tok".to_string(), 1, "wss://gateway.example".to_string());
    m.on_opened();
    let actions = m.on_frame("not json at all", 0);
    assert_eq!(m.phase, Phase::Terminated);
    assert!(matches!(actions[..], [Action::Fail(GatewayError::HandshakeViolation)]));
    let mut m = Manager::new("tok".to_string(), 1, "wss://gateway.example".to_string());
    m.on_opened();
    let actions = m.on_frame(r#"{"d":{"heartbeat_interval":10}}"#, 0);
    assert_eq!(m.phase, Phase::Terminated);
    assert!(matches!(actions[..], [Action::Fail(GatewayError::HandshakeViolation)]));
    let hello_without_interval = r#"{"op":10,"d":{}}"#;
    let mut m = Manager::new("tok".to_string(), 1, "wss://gateway.example".to_string());
    m.on_opened();
    let actions = m.on_frame(hello_without_interval, 0);
    assert!(matches!(actions[..], [Action::Fail(GatewayError::HandshakeViolation)]));
}

#[test]
fn server_heartbeat_request_is_answered() {
    let mut m = connected();
    m.on_frame(MESSAGE, 1);
    let actions = m.on_frame(r#"{"op":1,"d":null}"#, 2);
    assert!(matches!(actions[..], [Action::SendHeartbeat { sequence: Some(7) }]));
}

#[test]
fn closed_socket_terminates_with_error() {
    let mut m = connected();
    let actions = m.on_closed();
    assert_eq!(m.phase, Phase::Terminated);
    assert!(!m.heartbeat.running);
    assert!(matches!(actions[..], [Action::Fail(GatewayError::TransportClosed)]));
    assert!(m.on_closed().is_empty());
    assert!(m.on_frame(MESSAGE, 3).is_empty());
}

#[test]
fn shutdown_stops_everything() {
    let mut m = connected();
    m.shutdown();
    assert_eq!(m.phase, Phase::Terminated);
    assert!(m.on_tick(1_000_000).is_empty());
}

#[test]
fn missed_ack_degrades_between_one_and_two_intervals() {
    let mut m = connected();
    let t = 45_000u64;
    assert!(matches!(m.on_tick(0)[..], [Action::SendHeartbeat { .. }]));
    assert!(m.on_tick(t - 1).is_empty());
    assert_eq!(m.phase, Phase::Connected);
    let actions = m.on_tick(t);
    assert_eq!(m.phase, Phase::Degraded);
    assert!(!m.heartbeat.running);
    assert!(matches!(actions[..], [Action::Reopen { .. }]));
}

#[test]
fn acknowledged_heartbeats_keep_going() {
    let mut m = connected();
    let t = 45_000u64;
    assert_eq!(m.on_tick(0).len(), 1);
    m.on_frame(r#"{"op":11,"d":null}"#, 10);
    assert!(m.session.last_ack_received);
    assert!(matches!(m.on_tick(t)[..], [Action::SendHeartbeat { .. }]));
    assert!(!m.session.last_ack_received);
    assert_eq!(m.phase, Phase::Connected);
}

#[test]
fn scheduler_ticks() {
    let mut h = Heartbeat::start(100, 50);
    assert_eq!(h.tick(49), Beat::Idle);
    assert_eq!(h.tick(50), Beat::Send);
    assert_eq!(h.due, 150);
    assert!(h.awaiting_ack);
    assert_eq!(h.tick(149), Beat::Idle);
    assert_eq!(h.tick(150), Beat::Missed);
    assert!(!h.running);
    assert_eq!(h.tick(500), Beat::Idle);
    let mut h = Heartbeat::start(100, 0);
    assert_eq!(h.tick(0), Beat::Send);
    h.acknowledge();
    assert_eq!(h.tick(100), Beat::Send);
    h.stop();
    assert_eq!(h.tick(1000), Beat::Idle);
    assert!(!Heartbeat::stopped().running);
}

#[test]
fn scheduler_deadline_saturates() {
    let mut h = Heartbeat::start(10, u64::MAX - 3);
    assert_eq!(h.tick(u64::MAX - 3), Beat::Send);
    assert_eq!(h.due, u64::MAX);
}

#[test]
fn json_that_is_no_envelope_is_skipped_when_connected() {
    let mut m = connected();
    assert!(m.on_frame(r#"{"op":0,"d":{}}"#, 5).is_empty());
    assert!(m.on_frame(r#"[1,2,3]"#, 5).is_empty());
    assert_eq!(m.phase, Phase::Connected);
    assert_eq!(m.session.last_sequence, None);
}

#[test]
fn ready_event_carries_its_members() {
    let mut m = connected();
    let actions = m.on_frame(READY, 1);
    match &actions[..] {
        [Action::Deliver(Event::Ready(ready))] => {
            assert_eq!(ready.session_id, "abc123");
            assert_eq!(ready.session_type, "normal");
            assert_eq!(ready.resume_gateway_url, "wss://resume.example");
            assert_eq!(ready.application.id, "42");
            assert_eq!(ready.application.flags, 0);
        }
        _ => panic!("expected a ready event"),
    }
    assert_eq!(m.session.resume_url.as_deref(), Some("wss://resume.example"));
}
