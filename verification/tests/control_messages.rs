//! Tests of the control-message encoding, decoding and the factory.

use arrow_client::control::{
    ControlMessage, ControlMessageBody, ControlMessageType, ACK_NO_ERROR, CMSG_ACK,
    CMSG_GET_SCAN_REPORT, CMSG_GET_STATUS, CMSG_HUP, CMSG_PING, CMSG_REDIRECT,
    CMSG_RESET_SVC_TABLE, CMSG_SCAN_NETWORK,
};
use arrow_client::factory::ControlMessageFactory;

/// The wire bytes of a control message header.
fn header_bytes(msg_id: u16, msg_type: u16) -> Vec<u8> {
    let mut v = Vec::new();
    v.extend_from_slice(&msg_id.to_be_bytes());
    v.extend_from_slice(&msg_type.to_be_bytes());
    v
}

#[test]
fn ack_encodes_header_and_error_code() {
    let factory = ControlMessageFactory::new();
    let ack = factory.ack(0x0102, 0x00000007);
    let mut buf: Vec<u8> = Vec::new();
    ack.encode(&mut buf);
    assert_eq!(buf, vec![0x01, 0x02, 0x00, 0x00, 0x00, 0x00, 0x00, 0x07]);
    assert_eq!(ack.len(), 8);
}

#[test]
fn register_encodes_version_identity_and_table() {
    let mut factory = ControlMessageFactory::new();
    let msg = factory.register(
        [0x00, 0x11, 0x22, 0x33, 0x44, 0x55],
        [0x01; 16],
        [0x02; 16],
        &[0xf0, 0xf1],
    );
    let mut buf: Vec<u8> = Vec::new();
    msg.encode(&mut buf);
    let mut expected = header_bytes(1, 0x0002);
    expected.push(1); // protocol version
    expected.extend_from_slice(&[0x00, 0x11, 0x22, 0x33, 0x44, 0x55]);
    expected.extend_from_slice(&[0x01; 16]);
    expected.extend_from_slice(&[0x02; 16]);
    expected.extend_from_slice(&[0xf0, 0xf1]);
    assert_eq!(buf, expected);
    assert_eq!(msg.len(), expected.len());
}

#[test]
fn request_ids_are_monotonic_and_responses_echo() {
    let mut factory = ControlMessageFactory::new();
    let reg = factory.register([0; 6], [0; 16], [0; 16], &[]);
    assert_eq!(reg.header().msg_id, 1);
    let upd = factory.update(&[]);
    assert_eq!(upd.header().msg_id, 2);
    let ping = factory.ping();
    assert_eq!(ping.header().msg_id, 3);
    // responses echo the given id and do not advance the counter
    let ack = factory.ack(0x0a0b, 0);
    assert_eq!(ack.header().msg_id, 0x0a0b);
    let status = factory.status(0x0c0d, 1, 2);
    assert_eq!(status.header().msg_id, 0x0c0d);
    let report = factory.scan_report(0x0e0f, vec![9]);
    assert_eq!(report.header().msg_id, 0x0e0f);
    let ping2 = factory.ping();
    assert_eq!(ping2.header().msg_id, 4);
}

#[test]
fn decode_ack_round_trip() {
    let factory = ControlMessageFactory::new();
    let ack = factory.ack(42, ACK_NO_ERROR);
    let mut buf: Vec<u8> = Vec::new();
    ack.encode(&mut buf);
    let decoded = ControlMessage::from_bytes(&buf).unwrap();
    assert_eq!(decoded.header().msg_id, 42);
    assert_eq!(decoded.header().msg_type, CMSG_ACK);
    match decoded.body() {
        ControlMessageBody::Ack(a) => assert_eq!(a.err, ACK_NO_ERROR),
        _ => panic!("expected an ACK body"),
    }
}

#[test]
fn decode_empty_bodied_types_round_trip() {
    for t in [
        CMSG_PING,
        CMSG_RESET_SVC_TABLE,
        CMSG_SCAN_NETWORK,
        CMSG_GET_STATUS,
        CMSG_GET_SCAN_REPORT,
    ] {
        let bytes = header_bytes(5, t);
        let decoded = ControlMessage::from_bytes(&bytes).unwrap();
        assert_eq!(decoded.header().msg_id, 5);
        assert_eq!(decoded.header().msg_type, t);
        assert!(matches!(decoded.body(), ControlMessageBody::Empty(_)));
    }
}

#[test]
fn decode_empty_bodied_type_rejects_payload() {
    let mut bytes = header_bytes(5, CMSG_PING);
    bytes.push(0);
    let err = ControlMessage::from_bytes(&bytes).unwrap_err();
    assert_eq!(err.msg, "malformed Arrow Control Protocol message");
}

#[test]
fn decode_hup_round_trip() {
    let mut bytes = header_bytes(9, CMSG_HUP);
    bytes.extend_from_slice(&[0, 0, 0, 5, 0, 0, 0, 2]);
    let decoded = ControlMessage::from_bytes(&bytes).unwrap();
    match decoded.body() {
        ControlMessageBody::Hup(h) => {
            assert_eq!(h.session_id, 5);
            assert_eq!(h.error_code, 2);
        },
        _ => panic!("expected a HUP body"),
    }
}

#[test]
fn decode_hup_rejects_wrong_length() {
    let mut bytes = header_bytes(9, CMSG_HUP);
    bytes.extend_from_slice(&[0, 0, 0, 5]);
    let err = ControlMessage::from_bytes(&bytes).unwrap_err();
    assert_eq!(err.msg, "malformed Arrow Control Protocol message");
}

#[test]
fn decode_redirect_reads_utf8_target() {
    let mut bytes = header_bytes(3, CMSG_REDIRECT);
    bytes.extend_from_slice("newhost:8900".as_bytes());
    let decoded = ControlMessage::from_bytes(&bytes).unwrap();
    match decoded.body() {
        ControlMessageBody::Redirect(r) => assert_eq!(r.target, "newhost:8900"),
        _ => panic!("expected a REDIRECT body"),
    }
}

#[test]
fn decode_redirect_reads_non_ascii_target() {
    let mut bytes = header_bytes(3, CMSG_REDIRECT);
    bytes.extend_from_slice("h\u{00f8}st:1".as_bytes());
    let decoded = ControlMessage::from_bytes(&bytes).unwrap();
    match decoded.body() {
        ControlMessageBody::Redirect(r) => assert_eq!(r.target, "h\u{00f8}st:1"),
        _ => panic!("expected a REDIRECT body"),
    }
}

#[test]
fn decode_redirect_rejects_invalid_utf8() {
    let mut bytes = header_bytes(3, CMSG_REDIRECT);
    bytes.extend_from_slice(&[0xff, 0xfe]);
    let err = ControlMessage::from_bytes(&bytes).unwrap_err();
    assert_eq!(err.msg, "malformed Arrow Control Protocol message");
}

#[test]
fn decode_rejects_unknown_type() {
    let bytes = header_bytes(1, 0x7777);
    let err = ControlMessage::from_bytes(&bytes).unwrap_err();
    assert_eq!(err.msg, "unknown Arrow Control Protocol message type");
}

#[test]
fn decode_rejects_outbound_only_types() {
    for t in [0x0002u16, 0x0004, 0x0009, 0x000b] {
        let bytes = header_bytes(1, t);
        let err = ControlMessage::from_bytes(&bytes).unwrap_err();
        assert_eq!(err.msg, "unexpected Arrow Control Protocol message type");
    }
}

#[test]
fn decode_rejects_truncated_header() {
    let err = ControlMessage::from_bytes(&[0, 1, 0]).unwrap_err();
    assert_eq!(err.msg, "malformed Arrow Control Protocol message");
}

#[test]
fn message_type_maps_all_codes() {
    let cases: Vec<(u16, ControlMessageType)> = vec![
        (0x0000, ControlMessageType::ACK),
        (0x0001, ControlMessageType::PING),
        (0x0002, ControlMessageType::REGISTER),
        (0x0003, ControlMessageType::REDIRECT),
        (0x0004, ControlMessageType::UPDATE),
        (0x0005, ControlMessageType::HUP),
        (0x0006, ControlMessageType::RESET_SVC_TABLE),
        (0x0007, ControlMessageType::SCAN_NETWORK),
        (0x0008, ControlMessageType::GET_STATUS),
        (0x0009, ControlMessageType::STATUS),
        (0x000a, ControlMessageType::GET_SCAN_REPORT),
        (0x000b, ControlMessageType::SCAN_REPORT),
        (0x7777, ControlMessageType::UNKNOWN),
    ];
    for (code, expected) in cases {
        let header = arrow_client::control::ControlMessageHeader { msg_id: 0, msg_type: code };
        assert_eq!(header.message_type(), expected);
    }
}

#[test]
fn status_and_scan_report_encode() {
    let factory = ControlMessageFactory::new();
    let status = factory.status(7, 1, 3);
    let mut buf: Vec<u8> = Vec::new();
    status.encode(&mut buf);
    let mut expected = header_bytes(7, 0x0009);
    expected.extend_from_slice(&[0, 0, 0, 1, 0, 0, 0, 3]);
    assert_eq!(buf, expected);

    let report = factory.scan_report(8, vec![0xaa, 0xbb]);
    let mut buf2: Vec<u8> = Vec::new();
    report.encode(&mut buf2);
    let mut expected2 = header_bytes(8, 0x000b);
    expected2.extend_from_slice(&[0xaa, 0xbb]);
    assert_eq!(buf2, expected2);
}

#[test]
fn control_message_into_arrow_message_is_control_plane() {
    let factory = ControlMessageFactory::new();
    let ack = factory.ack(1, 0);
    let mut expected: Vec<u8> = Vec::new();
    ack.encode(&mut expected);
    let factory2 = ControlMessageFactory::new();
    let am = factory2.ack(1, 0).into_arrow_message();
    assert_eq!(am.service, 0);
    assert_eq!(am.payload, expected);
}
