//! Length-prefixed framing of [`ArrowMessage`] values on a byte stream.
//!
//! A frame is `[length: u32][service: u16][payload]`, all big-endian, where
//! `length` counts the service field and the payload. Decoding is streaming:
//! it consumes complete frames from the front of a buffer and leaves partial
//! frames in place.

use vstd::prelude::*;

use crate::error::DecodeError;
use crate::msg::{ArrowMessage, ArrowMessageModel};
use crate::wire::{
    lemma_be16_round_trip, lemma_be32_round_trip, push_u16_be, push_u32_be, read_u16_be,
    read_u32_be, spec_be16, spec_be16_value, spec_be32, spec_be32_value,
};

verus! {

/// What the decoder sees at the front of a buffer.
pub enum FrameStep {
    /// No complete frame yet; more bytes are needed.
    Incomplete,
    /// The length field cannot hold a frame header.
    Malformed,
    /// A complete frame, and the bytes that follow it.
    Complete(ArrowMessageModel, Seq<u8>),
}

/// The frame encoding of a message.
pub open spec fn spec_encode_frame(m: ArrowMessageModel) -> Seq<u8> {
    spec_be32((m.payload.len() + 2) as u32) + spec_be16(m.service) + m.payload
}

/// The decoding step taken on a buffer: the first complete frame, if any.
pub open spec fn spec_decode_frame(b: Seq<u8>) -> FrameStep {
    if b.len() < 4 {
        FrameStep::Incomplete
    } else {
        let len = spec_be32_value(b[0], b[1], b[2], b[3]);
        if len < 2 {
            FrameStep::Malformed
        } else if b.len() < 4 + len {
            FrameStep::Incomplete
        } else {
            FrameStep::Complete(
                ArrowMessageModel {
                    service: spec_be16_value(b[4], b[5]) as u16,
                    payload: b.subrange(6, 4 + len),
                },
                b.skip(4 + len),
            )
        }
    }
}

/// Append the frame encoding of `msg` to an output buffer.
pub fn encode_frame(msg: &ArrowMessage, buf: &mut Vec<u8>)
    requires
        msg@.payload.len() + 2 <= u32::MAX,
    ensures
        final(buf)@ == old(buf)@ + spec_encode_frame(msg@),
{
    let len_field: u32 = (msg.payload.len() + 2) as u32;
    push_u32_be(buf, len_field);
    push_u16_be(buf, msg.service);
    let mut i: usize = 0;
    while i < msg.payload.len()
        invariant
            i <= msg.payload.len(),
            msg@.payload.len() + 2 <= u32::MAX,
            buf@ == old(buf)@ + spec_be32((msg@.payload.len() + 2) as u32) + spec_be16(msg@.service)
                + msg@.payload.take(i as int),
        decreases msg.payload.len() - i,
    {
        buf.push(msg.payload[i]);
        i = i + 1;
        assert(msg@.payload.take(i as int) =~= msg@.payload.take(i - 1).push(msg@.payload[i - 1]));
    }
    assert(msg@.payload.take(msg@.payload.len() as int) =~= msg@.payload);
    assert(final(buf)@ =~= old(buf)@ + spec_encode_frame(msg@));
}

/// Take the first complete frame off the front of `buf`.
///
/// Returns `Ok(None)` when the buffer holds no complete frame yet, `Ok(Some)`
/// with the frame removed from the buffer, and an error when the length field
/// is too small to hold a frame header.
pub fn decode_frame(buf: &mut Vec<u8>) -> (r: Result<Option<ArrowMessage>, DecodeError>)
    ensures
        match spec_decode_frame(old(buf)@) {
            FrameStep::Incomplete => r matches Ok(o) && o is None && final(buf)@ == old(buf)@,
            FrameStep::Malformed => r matches Err(e) && e.msg@ == "malformed Arrow Message"@
                && final(buf)@ == old(buf)@,
            FrameStep::Complete(m, rest) => r matches Ok(o) && o matches Some(msg) && msg@ == m
                && final(buf)@ == rest,
        },
{
    if buf.len() < 4 {
        return Ok(None);
    }
    let len = read_u32_be(buf[0], buf[1], buf[2], buf[3]);
    if len < 2 {
        return Err(DecodeError::new("malformed Arrow Message"));
    }
    if (buf.len() as u64) < len as u64 + 4 {
        return Ok(None);
    }
    let total: usize = (len as u64 + 4) as usize;
    let service = read_u16_be(buf[4], buf[5]);
    let mut payload: Vec<u8> = Vec::new();
    let mut i: usize = 6;
    while i < total
        invariant
            6 <= i <= total,
            total == len + 4,
            2 <= len <= u32::MAX,
            total <= buf.len(),
            buf@ == old(buf)@,
            payload@ == buf@.subrange(6, i as int),
        decreases total - i,
    {
        payload.push(buf[i]);
        i = i + 1;
        assert(buf@.subrange(6, i as int) =~= buf@.subrange(6, i - 1).push(buf@[i - 1]));
    }
    let mut rest: Vec<u8> = Vec::new();
    let mut j: usize = total;
    while j < buf.len()
        invariant
            total <= j <= buf.len(),
            total == len + 4,
            buf@ == old(buf)@,
            rest@ == buf@.subrange(total as int, j as int),
        decreases buf.len() - j,
    {
        rest.push(buf[j]);
        j = j + 1;
        assert(buf@.subrange(total as int, j as int) =~= buf@.subrange(total as int, j - 1).push(
            buf@[j - 1],
        ));
    }
    assert(rest@ =~= old(buf)@.skip(4 + len as int));
    *buf = rest;
    Ok(Some(ArrowMessage { service, payload }))
}

/// Law: framing round-trips. Decoding a buffer that starts with the encoding
/// of `m` yields `m` back and leaves exactly the trailing bytes.
pub proof fn lemma_frame_round_trip(m: ArrowMessageModel, rest: Seq<u8>)
    requires
        m.payload.len() + 2 <= u32::MAX,
    ensures
        spec_decode_frame(spec_encode_frame(m) + rest) == FrameStep::Complete(m, rest),
{
    let len_field = (m.payload.len() + 2) as u32;
    lemma_be32_round_trip(len_field);
    lemma_be16_round_trip(m.service);
    let b = spec_encode_frame(m) + rest;
    let len = spec_be32_value(b[0], b[1], b[2], b[3]);
    assert(b[0] == spec_be32(len_field)[0]);
    assert(b[1] == spec_be32(len_field)[1]);
    assert(b[2] == spec_be32(len_field)[2]);
    assert(b[3] == spec_be32(len_field)[3]);
    assert(len == m.payload.len() + 2);
    assert(b[4] == spec_be16(m.service)[0]);
    assert(b[5] == spec_be16(m.service)[1]);
    assert(spec_be16_value(b[4], b[5]) == m.service);
    assert(b.subrange(6, 4 + len) =~= m.payload);
    assert(b.skip(4 + len) =~= rest);
}

} // verus!
