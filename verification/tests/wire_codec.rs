//! Tests of the big-endian field helpers and the frame codec.

use arrow_client::codec::{decode_frame, encode_frame};
use arrow_client::msg::ArrowMessage;
use arrow_client::wire::{push_u16_be, push_u32_be, read_u16_be, read_u32_be};

#[test]
fn be16_encodes_big_endian() {
    let mut buf: Vec<u8> = Vec::new();
    push_u16_be(&mut buf, 0x1234);
    assert_eq!(buf, vec![0x12, 0x34]);
}

#[test]
fn be32_encodes_big_endian() {
    let mut buf: Vec<u8> = Vec::new();
    push_u32_be(&mut buf, 0xdeadbeef);
    assert_eq!(buf, vec![0xde, 0xad, 0xbe, 0xef]);
}

#[test]
fn be16_round_trip() {
    let mut buf: Vec<u8> = Vec::new();
    push_u16_be(&mut buf, 0xffee);
    assert_eq!(read_u16_be(buf[0], buf[1]), 0xffee);
}

#[test]
fn be32_round_trip() {
    let mut buf: Vec<u8> = Vec::new();
    push_u32_be(&mut buf, 0x01020304);
    assert_eq!(read_u32_be(buf[0], buf[1], buf[2], buf[3]), 0x01020304);
}

#[test]
fn frame_encodes_length_service_payload() {
    let msg = ArrowMessage::new(0x0102, vec![0xaa, 0xbb, 0xcc]);
    let mut buf: Vec<u8> = Vec::new();
    encode_frame(&msg, &mut buf);
    // length = 2 (service) + 3 (payload) = 5, big-endian u32
    assert_eq!(buf, vec![0, 0, 0, 5, 0x01, 0x02, 0xaa, 0xbb, 0xcc]);
}

#[test]
fn frame_decode_round_trip_with_trailing_bytes() {
    let msg = ArrowMessage::new(7, vec![1, 2, 3, 4]);
    let mut buf: Vec<u8> = Vec::new();
    encode_frame(&msg, &mut buf);
    buf.push(0x99);
    let decoded = decode_frame(&mut buf).unwrap().unwrap();
    assert_eq!(decoded.service, 7);
    assert_eq!(decoded.payload, vec![1, 2, 3, 4]);
    assert_eq!(buf, vec![0x99]);
}

#[test]
fn frame_decode_waits_for_complete_frame() {
    // a frame of total length 4 + 6; feed it byte by byte
    let msg = ArrowMessage::new(1, vec![10, 20, 30, 40]);
    let mut encoded: Vec<u8> = Vec::new();
    encode_frame(&msg, &mut encoded);
    let mut buf: Vec<u8> = Vec::new();
    for (i, b) in encoded.iter().enumerate() {
        buf.push(*b);
        let r = decode_frame(&mut buf).unwrap();
        if i + 1 < encoded.len() {
            assert!(r.is_none());
        } else {
            let m = r.unwrap();
            assert_eq!(m.service, 1);
            assert_eq!(m.payload, vec![10, 20, 30, 40]);
            assert!(buf.is_empty());
        }
    }
}

#[test]
fn frame_decode_rejects_short_length() {
    // length field 1 cannot even hold the service field
    let mut buf: Vec<u8> = vec![0, 0, 0, 1, 0xff];
    let err = decode_frame(&mut buf).unwrap_err();
    assert_eq!(err.msg, "malformed Arrow Message");
}

#[test]
fn frame_decode_empty_payload() {
    let msg = ArrowMessage::new(0, Vec::new());
    let mut buf: Vec<u8> = Vec::new();
    encode_frame(&msg, &mut buf);
    assert_eq!(buf, vec![0, 0, 0, 2, 0, 0]);
    let decoded = decode_frame(&mut buf).unwrap().unwrap();
    assert_eq!(decoded.service, 0);
    assert!(decoded.payload.is_empty());
    assert!(buf.is_empty());
}
