//! End-to-end scenarios of the protocol engine under a simulated clock.

use arrow_client::control::{
    CMSG_ACK, CMSG_GET_SCAN_REPORT, CMSG_GET_STATUS, CMSG_HUP, CMSG_PING, CMSG_REDIRECT,
    CMSG_RESET_SVC_TABLE, CMSG_SCAN_NETWORK, CMSG_UPDATE,
};
use arrow_client::engine::{ArrowClientContext, Command, PollOutput, ProtocolState};
use arrow_client::error::ErrorKind;
use arrow_client::msg::ArrowMessage;

const MAC: [u8; 6] = [0x00, 0x11, 0x22, 0x33, 0x44, 0x55];

fn new_engine(diagnostic_mode: bool, now: u64) -> ArrowClientContext {
    ArrowClientContext::new(MAC, [0x01; 16], [0x02; 16], Vec::new(), diagnostic_mode, now)
}

/// An inbound control frame with the given header and body bytes.
fn control_frame(msg_id: u16, msg_type: u16, body: &[u8]) -> ArrowMessage {
    let mut payload = Vec::new();
    payload.extend_from_slice(&msg_id.to_be_bytes());
    payload.extend_from_slice(&msg_type.to_be_bytes());
    payload.extend_from_slice(body);
    ArrowMessage::new(0, payload)
}

/// An inbound ACK frame.
fn ack_frame(msg_id: u16, err: u32) -> ArrowMessage {
    control_frame(msg_id, CMSG_ACK, &err.to_be_bytes())
}

/// Feed the REGISTER ACK so the engine reaches Established.
fn establish(engine: &mut ArrowClientContext) {
    engine.start_send(ack_frame(1, 0)).unwrap();
    assert_eq!(engine.state(), ProtocolState::Established);
}

/// Poll until the engine suspends, collecting the produced frames.
fn drain(engine: &mut ArrowClientContext, now: u64) -> Vec<ArrowMessage> {
    let mut out = Vec::new();
    loop {
        match engine.poll(now).unwrap() {
            PollOutput::Message(m) => out.push(m),
            PollOutput::Pending => return out,
            PollOutput::Closed => panic!("engine closed while draining"),
        }
    }
}

/// The message type code of a control frame.
fn type_code(m: &ArrowMessage) -> u16 {
    assert_eq!(m.service, 0);
    u16::from_be_bytes([m.payload[2], m.payload[3]])
}

#[test]
fn s1_successful_handshake() {
    let mut engine = new_engine(false, 1000);
    // first outbound frame: REGISTER with msg_id 1
    let first = match engine.poll(1000).unwrap() {
        PollOutput::Message(m) => m,
        _ => panic!("expected the REGISTER frame"),
    };
    assert_eq!(first.service, 0);
    assert_eq!(&first.payload[0..2], &[0, 1]); // msg_id 1
    assert_eq!(&first.payload[2..4], &[0, 2]); // REGISTER
    let mut expected_body = vec![1u8]; // protocol version
    expected_body.extend_from_slice(&MAC);
    expected_body.extend_from_slice(&[0x01; 16]);
    expected_body.extend_from_slice(&[0x02; 16]);
    assert_eq!(&first.payload[4..], &expected_body[..]);

    engine.start_send(ack_frame(1, 0)).unwrap();
    assert_eq!(engine.state(), ProtocolState::Established);
    assert_eq!(engine.pending_ack_count(), 0);
    assert!(!engine.is_closed());
}

#[test]
fn s2_unauthorized() {
    let mut engine = new_engine(false, 1000);
    let err = engine.start_send(ack_frame(1, 2)).unwrap_err();
    assert_eq!(err.kind, ErrorKind::Unauthorized);
    assert_eq!(err.msg, "Arrow REGISTER failed (unauthorized)");
}

#[test]
fn handshake_ack_error_codes() {
    let mut engine = new_engine(false, 0);
    let err = engine.start_send(ack_frame(1, 1)).unwrap_err();
    assert_eq!(err.kind, ErrorKind::UnsupportedProtocolVersion);

    let mut engine = new_engine(false, 0);
    let err = engine.start_send(ack_frame(1, 0xffffffff)).unwrap_err();
    assert_eq!(err.kind, ErrorKind::ArrowServerError);

    let mut engine = new_engine(false, 0);
    let err = engine.start_send(ack_frame(1, 7)).unwrap_err();
    assert_eq!(err.kind, ErrorKind::Other);
    assert_eq!(err.msg, "Arrow REGISTER failed (unknown error)");
}

#[test]
fn s3_ping_round_trip() {
    let t0 = 1000;
    let mut engine = new_engine(false, t0);
    let _register = drain(&mut engine, t0);
    establish(&mut engine);

    engine.time_event(t0 + 60);
    assert_eq!(engine.last_ping(), t0 + 60);
    let out = drain(&mut engine, t0 + 60);
    let pings: Vec<_> = out.iter().filter(|m| type_code(m) == CMSG_PING).collect();
    assert_eq!(pings.len(), 1);
    let ping_id = u16::from_be_bytes([pings[0].payload[0], pings[0].payload[1]]);
    assert_eq!(ping_id, 2);
    assert_eq!(engine.pending_ack_count(), 1);

    engine.start_send(ack_frame(ping_id, 0)).unwrap();
    assert_eq!(engine.pending_ack_count(), 0);
}

#[test]
fn s4_ack_timeout() {
    let t0 = 1000;
    let mut engine = new_engine(false, t0);
    let _register = drain(&mut engine, t0);
    establish(&mut engine);

    engine.time_event(t0 + 60); // sends the PING, deadline t0 + 80
    let _out = drain(&mut engine, t0 + 60);
    // 21 seconds after the PING, still no ACK
    let err = engine.poll(t0 + 81).unwrap_err();
    assert_eq!(err.kind, ErrorKind::ConnectionError);
    assert_eq!(err.msg, "Arrow Service connection timeout");
}

#[test]
fn s5_redirect_closes_cleanly() {
    let t0 = 1000;
    let mut engine = new_engine(false, t0);
    let _register = drain(&mut engine, t0);
    establish(&mut engine);

    engine
        .start_send(control_frame(3, CMSG_REDIRECT, "newhost:8900".as_bytes()))
        .unwrap();
    assert!(engine.is_closed());
    // any subsequent message is accepted but discarded
    engine.start_send(control_frame(4, CMSG_PING, &[])).unwrap();
    let out = drain_until_closed(&mut engine, t0);
    assert!(out.is_empty());
    assert_eq!(engine.get_redirect().unwrap(), "newhost:8900");
}

/// Poll until the engine reports a clean close, collecting frames.
fn drain_until_closed(engine: &mut ArrowClientContext, now: u64) -> Vec<ArrowMessage> {
    let mut out = Vec::new();
    loop {
        match engine.poll(now).unwrap() {
            PollOutput::Message(m) => out.push(m),
            PollOutput::Closed => return out,
            PollOutput::Pending => panic!("engine suspended instead of closing"),
        }
    }
}

#[test]
fn s6_ping_in_handshake_is_fatal() {
    let mut engine = new_engine(false, 1000);
    let err = engine.start_send(control_frame(9, CMSG_PING, &[])).unwrap_err();
    assert_eq!(err.kind, ErrorKind::Other);
    assert_eq!(err.msg, "cannot handle PING message in the Handshake state");
}

#[test]
fn register_is_tracked_exactly_once_until_ack() {
    let mut engine = new_engine(false, 0);
    assert_eq!(engine.pending_ack_count(), 1);
    engine.start_send(ack_frame(1, 0)).unwrap();
    assert_eq!(engine.pending_ack_count(), 0);
}

#[test]
fn reordered_ack_is_fatal() {
    let t0 = 0;
    let mut engine = new_engine(false, t0);
    let _ = drain(&mut engine, t0);
    establish(&mut engine);
    engine.time_event(t0 + 60); // queues a PING (and an UPDATE)
    engine.time_event(t0 + 120); // queues a second PING
    let out = drain(&mut engine, t0 + 60);
    let ping_ids: Vec<u16> = out
        .iter()
        .filter(|m| type_code(m) == CMSG_PING)
        .map(|m| u16::from_be_bytes([m.payload[0], m.payload[1]]))
        .collect();
    assert_eq!(ping_ids.len(), 2);
    assert_eq!(engine.pending_ack_count(), 2);
    // acknowledge the second ping first: FIFO order violated
    let err = engine.start_send(ack_frame(ping_ids[1], 0)).unwrap_err();
    assert_eq!(err.kind, ErrorKind::Other);
    assert_eq!(err.msg, "unexpected ACK message ID");
}

#[test]
fn ack_with_none_expected_is_fatal() {
    let mut engine = new_engine(false, 0);
    establish(&mut engine);
    assert_eq!(engine.pending_ack_count(), 0);
    let err = engine.start_send(ack_frame(9, 0)).unwrap_err();
    assert_eq!(err.kind, ErrorKind::Other);
    assert_eq!(err.msg, "no ACK message expected");
}

#[test]
fn redirect_processed_twice_keeps_first_target() {
    let mut engine = new_engine(false, 0);
    let _ = drain(&mut engine, 0);
    establish(&mut engine);
    engine
        .start_send(control_frame(3, CMSG_REDIRECT, "first:1".as_bytes()))
        .unwrap();
    engine
        .start_send(control_frame(4, CMSG_REDIRECT, "second:2".as_bytes()))
        .unwrap();
    assert_eq!(engine.get_redirect().unwrap(), "first:1");
}

#[test]
fn periodicity_under_simulated_clock() {
    let t0 = 0;
    let mut engine = new_engine(false, t0);
    let _register = drain(&mut engine, t0);
    establish(&mut engine);
    let held = 180;
    for s in 1..=held {
        engine.time_event(t0 + s);
    }
    let out = drain(&mut engine, t0 + 1); // earliest PING deadline is t0 + 80
    let pings = out.iter().filter(|m| type_code(m) == CMSG_PING).count();
    let updates = out.iter().filter(|m| type_code(m) == CMSG_UPDATE).count();
    assert_eq!(pings, (held / 60) as usize);
    assert_eq!(updates, (held / 5) as usize);
    assert_eq!(engine.pending_ack_count(), (held / 60) as usize);
}

#[test]
fn diagnostic_mode_reports_empty_redirect() {
    let mut engine = new_engine(true, 0);
    engine.start_send(ack_frame(1, 0)).unwrap();
    assert_eq!(engine.state(), ProtocolState::Established);
    assert!(engine.is_closed());
    assert_eq!(engine.get_redirect().unwrap(), "");
}

#[test]
fn ping_in_established_is_acked() {
    let mut engine = new_engine(false, 0);
    let _ = drain(&mut engine, 0);
    establish(&mut engine);
    engine.start_send(control_frame(77, CMSG_PING, &[])).unwrap();
    let out = drain(&mut engine, 0);
    assert_eq!(out.len(), 1);
    assert_eq!(type_code(&out[0]), CMSG_ACK);
    assert_eq!(&out[0].payload[0..2], &[0, 77]); // echoes the inbound id
    assert_eq!(&out[0].payload[4..8], &[0, 0, 0, 0]); // no error
}

#[test]
fn get_status_reports_scan_flag_and_sessions() {
    let mut engine = new_engine(false, 0);
    let _ = drain(&mut engine, 0);
    establish(&mut engine);
    // two sessions come alive through inbound service frames
    engine.start_send(ArrowMessage::new(5, vec![1])).unwrap();
    engine.start_send(ArrowMessage::new(6, vec![2])).unwrap();
    engine.set_scanning(true);
    engine.start_send(control_frame(12, CMSG_GET_STATUS, &[])).unwrap();
    let out = drain(&mut engine, 0);
    assert_eq!(out.len(), 1);
    assert_eq!(type_code(&out[0]), 0x0009); // STATUS
    assert_eq!(&out[0].payload[0..2], &[0, 12]);
    assert_eq!(&out[0].payload[4..8], &[0, 0, 0, 1]); // scan flag set
    assert_eq!(&out[0].payload[8..12], &[0, 0, 0, 2]); // two sessions
}

#[test]
fn get_scan_report_replies_with_report() {
    let mut engine = new_engine(false, 0);
    let _ = drain(&mut engine, 0);
    establish(&mut engine);
    engine.set_scan_report(vec![0xca, 0xfe]);
    engine
        .start_send(control_frame(13, CMSG_GET_SCAN_REPORT, &[]))
        .unwrap();
    let out = drain(&mut engine, 0);
    assert_eq!(out.len(), 1);
    assert_eq!(type_code(&out[0]), 0x000b); // SCAN_REPORT
    assert_eq!(&out[0].payload[4..], &[0xca, 0xfe]);
}

#[test]
fn commands_are_forwarded_in_established_only() {
    let mut engine = new_engine(false, 0);
    let err = engine
        .start_send(control_frame(1, CMSG_RESET_SVC_TABLE, &[]))
        .unwrap_err();
    assert_eq!(err.msg, "cannot handle the ResetServiceTable command in the Handshake state");

    let mut engine = new_engine(false, 0);
    let _ = drain(&mut engine, 0);
    establish(&mut engine);
    engine.start_send(control_frame(1, CMSG_RESET_SVC_TABLE, &[])).unwrap();
    engine.start_send(control_frame(2, CMSG_SCAN_NETWORK, &[])).unwrap();
    assert_eq!(engine.take_command(), Some(Command::ResetServiceTable));
    assert_eq!(engine.take_command(), Some(Command::ScanNetwork));
    assert_eq!(engine.take_command(), None);
}

#[test]
fn hup_closes_the_session() {
    let mut engine = new_engine(false, 0);
    let _ = drain(&mut engine, 0);
    establish(&mut engine);
    engine.start_send(ArrowMessage::new(5, vec![1])).unwrap();
    assert_eq!(engine.session_count(), 1);
    let mut hup_body = Vec::new();
    hup_body.extend_from_slice(&5u32.to_be_bytes());
    hup_body.extend_from_slice(&2u32.to_be_bytes());
    engine.start_send(control_frame(3, CMSG_HUP, &hup_body)).unwrap();
    assert_eq!(engine.session_count(), 0);
}

#[test]
fn service_request_in_handshake_is_fatal() {
    let mut engine = new_engine(false, 0);
    let err = engine.start_send(ArrowMessage::new(5, vec![1])).unwrap_err();
    assert_eq!(err.msg, "cannot handle service requests in the Handshake state");
}

#[test]
fn session_output_flows_after_control_queue() {
    let mut engine = new_engine(false, 0);
    let _ = drain(&mut engine, 0);
    establish(&mut engine);
    engine.push_session_output(ArrowMessage::new(5, vec![9]));
    engine.start_send(control_frame(77, CMSG_PING, &[])).unwrap();
    let out = drain(&mut engine, 0);
    // the control-plane reply goes first, session traffic after
    assert_eq!(out.len(), 2);
    assert_eq!(type_code(&out[0]), CMSG_ACK);
    assert_eq!(out[1].service, 5);
    assert_eq!(out[1].payload, vec![9]);
}

#[test]
fn inbound_service_frames_are_delivered_in_order() {
    let mut engine = new_engine(false, 0);
    let _ = drain(&mut engine, 0);
    establish(&mut engine);
    engine.start_send(ArrowMessage::new(5, vec![1])).unwrap();
    engine.start_send(ArrowMessage::new(6, vec![2])).unwrap();
    let a = engine.pop_session_delivered().unwrap();
    let b = engine.pop_session_delivered().unwrap();
    assert_eq!((a.service, a.payload), (5, vec![1]));
    assert_eq!((b.service, b.payload), (6, vec![2]));
    assert!(engine.pop_session_delivered().is_none());
}

#[test]
fn malformed_control_frame_is_fatal() {
    let mut engine = new_engine(false, 0);
    let _ = drain(&mut engine, 0);
    establish(&mut engine);
    let err = engine.start_send(ArrowMessage::new(0, vec![0, 1])).unwrap_err();
    assert_eq!(err.kind, ErrorKind::Other);
    assert_eq!(err.msg, "malformed Arrow Control Protocol message");
}
