//! Typed control messages of the Arrow control plane and their wire encoding.
//!
//! A control message is a header `[msg_id: u16][msg_type: u16]` followed by a
//! typed body, all big-endian. Inbound decoding accepts only the message types
//! a server may send; the outbound-only bodies (REGISTER, UPDATE, STATUS,
//! SCAN_REPORT) are rejected when received.

use vstd::prelude::*;

use crate::error::DecodeError;
use crate::msg::{ArrowMessage, ArrowMessageModel};
use crate::wire::{
    lemma_be16_round_trip, lemma_be32_round_trip, push_u16_be, push_u32_be, read_u16_be,
    read_u32_be, spec_be16, spec_be16_value, spec_be32, spec_be32_value,
};

use vstd::slice::{slice_subrange, slice_to_vec};
use vstd::utf8::{decode_utf8, encode_utf8, encode_utf8_decode_utf8, encode_utf8_valid_utf8,
    valid_utf8};

verus! {

/// Version of the Arrow protocol spoken by this client, embedded in REGISTER.
pub const ARROW_PROTOCOL_VERSION: u8 = 1;

// ACK error codes.
pub const ACK_NO_ERROR: u32 = 0x00000000;
pub const ACK_UNSUPPORTED_PROTOCOL_VERSION: u32 = 0x00000001;
pub const ACK_UNAUTHORIZED: u32 = 0x00000002;
pub const ACK_CONNECTION_ERROR: u32 = 0x00000003;
pub const ACK_UNSUPPORTED_METHOD: u32 = 0x00000004;
pub const ACK_INTERNAL_SERVER_ERROR: u32 = 0xffffffff;

/// STATUS flag: a network scan is in progress.
pub const STATUS_FLAG_SCAN: u32 = 0x00000001;

// Message type codes.
pub const CMSG_ACK: u16 = 0x0000;
pub const CMSG_PING: u16 = 0x0001;
pub const CMSG_REGISTER: u16 = 0x0002;
pub const CMSG_REDIRECT: u16 = 0x0003;
pub const CMSG_UPDATE: u16 = 0x0004;
pub const CMSG_HUP: u16 = 0x0005;
pub const CMSG_RESET_SVC_TABLE: u16 = 0x0006;
pub const CMSG_SCAN_NETWORK: u16 = 0x0007;
pub const CMSG_GET_STATUS: u16 = 0x0008;
pub const CMSG_STATUS: u16 = 0x0009;
pub const CMSG_GET_SCAN_REPORT: u16 = 0x000a;
pub const CMSG_SCAN_REPORT: u16 = 0x000b;

/// Arrow control protocol message types.
#[allow(non_camel_case_types)]
#[derive(Copy, Clone, Eq, PartialEq, Structural, Debug)]
pub enum ControlMessageType {
    ACK,
    PING,
    REGISTER,
    REDIRECT,
    UPDATE,
    HUP,
    RESET_SVC_TABLE,
    SCAN_NETWORK,
    GET_STATUS,
    STATUS,
    UNKNOWN,
    GET_SCAN_REPORT,
    SCAN_REPORT,
}

/// The message type denoted by a type code.
pub open spec fn spec_message_type(code: u16) -> ControlMessageType {
    if code == CMSG_ACK {
        ControlMessageType::ACK
    } else if code == CMSG_PING {
        ControlMessageType::PING
    } else if code == CMSG_REGISTER {
        ControlMessageType::REGISTER
    } else if code == CMSG_REDIRECT {
        ControlMessageType::REDIRECT
    } else if code == CMSG_UPDATE {
        ControlMessageType::UPDATE
    } else if code == CMSG_HUP {
        ControlMessageType::HUP
    } else if code == CMSG_RESET_SVC_TABLE {
        ControlMessageType::RESET_SVC_TABLE
    } else if code == CMSG_SCAN_NETWORK {
        ControlMessageType::SCAN_NETWORK
    } else if code == CMSG_GET_STATUS {
        ControlMessageType::GET_STATUS
    } else if code == CMSG_STATUS {
        ControlMessageType::STATUS
    } else if code == CMSG_GET_SCAN_REPORT {
        ControlMessageType::GET_SCAN_REPORT
    } else if code == CMSG_SCAN_REPORT {
        ControlMessageType::SCAN_REPORT
    } else {
        ControlMessageType::UNKNOWN
    }
}

/// Arrow control protocol message header.
#[derive(Copy, Clone, Eq, PartialEq, Structural, Debug)]
pub struct ControlMessageHeader {
    /// Message ID: assigned by the sender, echoed in ACKs.
    pub msg_id: u16,
    /// Message type code.
    pub msg_type: u16,
}

impl ControlMessageHeader {
    /// The typed message type of this header.
    pub fn message_type(&self) -> (r: ControlMessageType)
        ensures
            r == spec_message_type(self.msg_type),
    {
        if self.msg_type == CMSG_ACK {
            ControlMessageType::ACK
        } else if self.msg_type == CMSG_PING {
            ControlMessageType::PING
        } else if self.msg_type == CMSG_REGISTER {
            ControlMessageType::REGISTER
        } else if self.msg_type == CMSG_REDIRECT {
            ControlMessageType::REDIRECT
        } else if self.msg_type == CMSG_UPDATE {
            ControlMessageType::UPDATE
        } else if self.msg_type == CMSG_HUP {
            ControlMessageType::HUP
        } else if self.msg_type == CMSG_RESET_SVC_TABLE {
            ControlMessageType::RESET_SVC_TABLE
        } else if self.msg_type == CMSG_SCAN_NETWORK {
            ControlMessageType::SCAN_NETWORK
        } else if self.msg_type == CMSG_GET_STATUS {
            ControlMessageType::GET_STATUS
        } else if self.msg_type == CMSG_STATUS {
            ControlMessageType::STATUS
        } else if self.msg_type == CMSG_GET_SCAN_REPORT {
            ControlMessageType::GET_SCAN_REPORT
        } else if self.msg_type == CMSG_SCAN_REPORT {
            ControlMessageType::SCAN_REPORT
        } else {
            ControlMessageType::UNKNOWN
        }
    }
}

/// ACK body: the error code of the acknowledged request.
#[derive(Copy, Clone, Eq, PartialEq, Structural, Debug)]
pub struct AckMessage {
    pub err: u32,
}

/// The empty payload of PING, RESET_SVC_TABLE, SCAN_NETWORK, GET_STATUS and
/// GET_SCAN_REPORT.
#[derive(Copy, Clone, Eq, PartialEq, Structural, Debug)]
pub struct EmptyMessage;

/// HUP body: the server hangs up one session.
#[derive(Copy, Clone, Eq, PartialEq, Structural, Debug)]
pub struct HupMessage {
    pub session_id: u32,
    pub error_code: u32,
}

/// REDIRECT body: the address the client shall reconnect to.
#[derive(Debug)]
pub struct RedirectMessage {
    pub target: String,
}

/// REGISTER body (outbound only): device identity and the service table.
#[derive(Debug)]
pub struct RegisterMessage {
    pub mac: [u8; 6],
    pub uuid: [u8; 16],
    pub password: [u8; 16],
    pub svc_table: Vec<u8>,
}

/// UPDATE body (outbound only): the current encoded service table.
#[derive(Debug)]
pub struct UpdateMessage {
    pub svc_table: Vec<u8>,
}

/// STATUS body (outbound only): reply to GET_STATUS.
#[derive(Copy, Clone, Eq, PartialEq, Structural, Debug)]
pub struct StatusMessage {
    pub status_flags: u32,
    pub active_sessions: u32,
}

/// SCAN_REPORT body (outbound only): reply to GET_SCAN_REPORT.
#[derive(Debug)]
pub struct ScanReportMessage {
    pub report: Vec<u8>,
}

/// A typed control message body.
#[derive(Debug)]
pub enum ControlMessageBody {
    Ack(AckMessage),
    Empty(EmptyMessage),
    Hup(HupMessage),
    Redirect(RedirectMessage),
    Register(RegisterMessage),
    Update(UpdateMessage),
    Status(StatusMessage),
    ScanReport(ScanReportMessage),
}

/// The mathematical value of a control message body.
pub enum ControlBodyModel {
    Ack { err: u32 },
    Empty,
    Hup { session_id: u32, error_code: u32 },
    Redirect { target: Seq<char> },
    Register { mac: Seq<u8>, uuid: Seq<u8>, password: Seq<u8>, svc_table: Seq<u8> },
    Update { svc_table: Seq<u8> },
    Status { status_flags: u32, active_sessions: u32 },
    ScanReport { report: Seq<u8> },
}

impl View for ControlMessageBody {
    type V = ControlBodyModel;

    open spec fn view(&self) -> ControlBodyModel {
        match self {
            ControlMessageBody::Ack(a) => ControlBodyModel::Ack { err: a.err },
            ControlMessageBody::Empty(_) => ControlBodyModel::Empty,
            ControlMessageBody::Hup(h) => ControlBodyModel::Hup {
                session_id: h.session_id,
                error_code: h.error_code,
            },
            ControlMessageBody::Redirect(r) => ControlBodyModel::Redirect { target: r.target@ },
            ControlMessageBody::Register(r) => ControlBodyModel::Register {
                mac: r.mac@,
                uuid: r.uuid@,
                password: r.password@,
                svc_table: r.svc_table@,
            },
            ControlMessageBody::Update(u) => ControlBodyModel::Update { svc_table: u.svc_table@ },
            ControlMessageBody::Status(s) => ControlBodyModel::Status {
                status_flags: s.status_flags,
                active_sessions: s.active_sessions,
            },
            ControlMessageBody::ScanReport(s) => ControlBodyModel::ScanReport { report: s.report@ },
        }
    }
}

/// The mathematical value of a control message.
pub struct ControlMessageModel {
    pub msg_id: u16,
    pub msg_type: u16,
    pub body: ControlBodyModel,
}

impl ControlMessageModel {
    /// Well-formedness: the header's type code matches the body variant, and
    /// the fixed-size REGISTER fields have their wire sizes.
    pub open spec fn wf(self) -> bool {
        match self.body {
            ControlBodyModel::Ack { .. } => self.msg_type == CMSG_ACK,
            ControlBodyModel::Empty => self.msg_type == CMSG_PING || self.msg_type
                == CMSG_RESET_SVC_TABLE || self.msg_type == CMSG_SCAN_NETWORK || self.msg_type
                == CMSG_GET_STATUS || self.msg_type == CMSG_GET_SCAN_REPORT,
            ControlBodyModel::Hup { .. } => self.msg_type == CMSG_HUP,
            ControlBodyModel::Redirect { .. } => self.msg_type == CMSG_REDIRECT,
            ControlBodyModel::Register { mac, uuid, password, .. } => self.msg_type == CMSG_REGISTER
                && mac.len() == 6 && uuid.len() == 16 && password.len() == 16,
            ControlBodyModel::Update { .. } => self.msg_type == CMSG_UPDATE,
            ControlBodyModel::Status { .. } => self.msg_type == CMSG_STATUS,
            ControlBodyModel::ScanReport { .. } => self.msg_type == CMSG_SCAN_REPORT,
        }
    }
}

/// Arrow control protocol message: header plus typed body.
#[derive(Debug)]
pub struct ControlMessage {
    header: ControlMessageHeader,
    body: ControlMessageBody,
}

impl View for ControlMessage {
    type V = ControlMessageModel;

    closed spec fn view(&self) -> ControlMessageModel {
        ControlMessageModel {
            msg_id: self.header.msg_id,
            msg_type: self.header.msg_type,
            body: self.body@,
        }
    }
}

/// The wire encoding of a control message body.
pub open spec fn spec_encode_body(b: ControlBodyModel) -> Seq<u8> {
    match b {
        ControlBodyModel::Ack { err } => spec_be32(err),
        ControlBodyModel::Empty => Seq::empty(),
        ControlBodyModel::Hup { session_id, error_code } => spec_be32(session_id) + spec_be32(
            error_code,
        ),
        ControlBodyModel::Redirect { target } => encode_utf8(target),
        ControlBodyModel::Register { mac, uuid, password, svc_table } => seq![
            ARROW_PROTOCOL_VERSION,
        ] + mac + uuid + password + svc_table,
        ControlBodyModel::Update { svc_table } => svc_table,
        ControlBodyModel::Status { status_flags, active_sessions } => spec_be32(status_flags)
            + spec_be32(active_sessions),
        ControlBodyModel::ScanReport { report } => report,
    }
}

/// The wire encoding of a control message: header then body.
pub open spec fn spec_encode_control(m: ControlMessageModel) -> Seq<u8> {
    spec_be16(m.msg_id) + spec_be16(m.msg_type) + spec_encode_body(m.body)
}

/// Whether a received type code has a decodable body. The outbound-only types
/// (REGISTER, UPDATE, STATUS, SCAN_REPORT) and unknown codes do not.
pub open spec fn spec_inbound_decodable(code: u16) -> bool {
    code == CMSG_ACK || code == CMSG_PING || code == CMSG_REDIRECT || code == CMSG_HUP || code
        == CMSG_RESET_SVC_TABLE || code == CMSG_SCAN_NETWORK || code == CMSG_GET_STATUS || code
        == CMSG_GET_SCAN_REPORT
}

/// The body parsed from a payload under a given type code, if any.
pub open spec fn spec_parse_body(code: u16, b: Seq<u8>) -> Option<ControlBodyModel> {
    if code == CMSG_ACK {
        if b.len() == 4 {
            Some(ControlBodyModel::Ack { err: spec_be32_value(b[0], b[1], b[2], b[3]) as u32 })
        } else {
            None
        }
    } else if code == CMSG_REDIRECT {
        if valid_utf8(b) {
            Some(ControlBodyModel::Redirect { target: decode_utf8(b) })
        } else {
            None
        }
    } else if code == CMSG_HUP {
        if b.len() == 8 {
            Some(
                ControlBodyModel::Hup {
                    session_id: spec_be32_value(b[0], b[1], b[2], b[3]) as u32,
                    error_code: spec_be32_value(b[4], b[5], b[6], b[7]) as u32,
                },
            )
        } else {
            None
        }
    } else if code == CMSG_PING || code == CMSG_RESET_SVC_TABLE || code == CMSG_SCAN_NETWORK || code
        == CMSG_GET_STATUS || code == CMSG_GET_SCAN_REPORT {
        if b.len() == 0 {
            Some(ControlBodyModel::Empty)
        } else {
            None
        }
    } else {
        None
    }
}

/// The error message a failed control-message decode carries: a truncated
/// header or a bad body is malformed, an unknown type code is unknown, and an
/// outbound-only type received from the server is unexpected.
pub open spec fn spec_decode_failure_msg(bytes: Seq<u8>) -> Seq<char> {
    if bytes.len() < 4 {
        "malformed Arrow Control Protocol message"@
    } else {
        let code = spec_be16_value(bytes[2], bytes[3]) as u16;
        if spec_message_type(code) == ControlMessageType::UNKNOWN {
            "unknown Arrow Control Protocol message type"@
        } else if code == CMSG_REGISTER || code == CMSG_UPDATE || code == CMSG_STATUS || code
            == CMSG_SCAN_REPORT {
            "unexpected Arrow Control Protocol message type"@
        } else {
            "malformed Arrow Control Protocol message"@
        }
    }
}

/// The control message parsed from a control-plane payload, if any.
pub open spec fn spec_parse_control(bytes: Seq<u8>) -> Option<ControlMessageModel> {
    if bytes.len() < 4 {
        None
    } else {
        let msg_id = spec_be16_value(bytes[0], bytes[1]) as u16;
        let msg_type = spec_be16_value(bytes[2], bytes[3]) as u16;
        match spec_parse_body(msg_type, bytes.skip(4)) {
            Some(body) => Some(ControlMessageModel { msg_id, msg_type, body }),
            None => None,
        }
    }
}

impl ControlMessage {
    /// Assemble a message from a header and a body.
    pub fn new(header: ControlMessageHeader, body: ControlMessageBody) -> (r: ControlMessage)
        ensures
            r@ == (ControlMessageModel {
                msg_id: header.msg_id,
                msg_type: header.msg_type,
                body: body@,
            }),
    {
        ControlMessage { header, body }
    }

    /// The message header.
    pub fn header(&self) -> (r: &ControlMessageHeader)
        ensures
            r.msg_id == self@.msg_id,
            r.msg_type == self@.msg_type,
    {
        &self.header
    }

    /// The typed message body.
    pub fn body(&self) -> (r: &ControlMessageBody)
        ensures
            r@ == self@.body,
    {
        &self.body
    }

    /// The length of the wire encoding of this message.
    pub fn len(&self) -> (r: usize)
        requires
            spec_encode_control(self@).len() <= usize::MAX,
        ensures
            r == spec_encode_control(self@).len(),
    {
        let body_len: usize = match &self.body {
            ControlMessageBody::Ack(_) => 4,
            ControlMessageBody::Empty(_) => 0,
            ControlMessageBody::Hup(_) => 8,
            ControlMessageBody::Redirect(m) => m.target.as_str().as_bytes().len(),
            ControlMessageBody::Register(m) => {
                proof {
                    assert(spec_encode_body(self@.body).len() == 39 + m.svc_table@.len());
                }
                39 + m.svc_table.len()
            },
            ControlMessageBody::Update(m) => m.svc_table.len(),
            ControlMessageBody::Status(_) => 8,
            ControlMessageBody::ScanReport(m) => m.report.len(),
        };
        4 + body_len
    }

    /// Append the wire encoding of this message to an output buffer.
    pub fn encode(&self, buf: &mut Vec<u8>)
        ensures
            final(buf)@ == old(buf)@ + spec_encode_control(self@),
    {
        push_u16_be(buf, self.header.msg_id);
        push_u16_be(buf, self.header.msg_type);
        match &self.body {
            ControlMessageBody::Ack(m) => {
                push_u32_be(buf, m.err);
            },
            ControlMessageBody::Empty(_) => {},
            ControlMessageBody::Hup(m) => {
                push_u32_be(buf, m.session_id);
                push_u32_be(buf, m.error_code);
            },
            ControlMessageBody::Redirect(m) => {
                push_bytes(buf, m.target.as_str().as_bytes());
            },
            ControlMessageBody::Register(m) => {
                buf.push(ARROW_PROTOCOL_VERSION);
                push_bytes(buf, m.mac.as_slice());
                push_bytes(buf, m.uuid.as_slice());
                push_bytes(buf, m.password.as_slice());
                push_bytes(buf, m.svc_table.as_slice());
                assert(buf@ =~= old(buf)@ + spec_encode_control(self@));
            },
            ControlMessageBody::Update(m) => {
                push_bytes(buf, m.svc_table.as_slice());
            },
            ControlMessageBody::Status(m) => {
                push_u32_be(buf, m.status_flags);
                push_u32_be(buf, m.active_sessions);
            },
            ControlMessageBody::ScanReport(m) => {
                push_bytes(buf, m.report.as_slice());
            },
        }
        assert(final(buf)@ =~= old(buf)@ + spec_encode_control(self@));
    }

    /// Wrap this message as a control-plane Arrow message.
    pub fn into_arrow_message(self) -> (r: ArrowMessage)
        ensures
            r@ == (ArrowMessageModel { service: 0u16, payload: spec_encode_control(self@) }),
    {
        let mut buf: Vec<u8> = Vec::new();
        self.encode(&mut buf);
        ArrowMessage::new(0, buf)
    }

    /// Decode an ACK body from a control message payload.
    pub fn decode_ack_message(bytes: &[u8]) -> (r: Result<ControlMessageBody, DecodeError>)
        ensures
            match r {
                Ok(b) => spec_parse_body(CMSG_ACK, bytes@) == Some(b@),
                Err(e) => spec_parse_body(CMSG_ACK, bytes@) is None && e.msg@
                    == "malformed Arrow Control Protocol message"@,
            },
    {
        if bytes.len() != 4 {
            return Err(DecodeError::new("malformed Arrow Control Protocol message"));
        }
        let err = read_u32_be(bytes[0], bytes[1], bytes[2], bytes[3]);
        Ok(ControlMessageBody::Ack(AckMessage { err }))
    }

    /// Decode a REDIRECT body from a control message payload.
    pub fn decode_redirect_message(bytes: &[u8]) -> (r: Result<ControlMessageBody, DecodeError>)
        ensures
            match r {
                Ok(b) => spec_parse_body(CMSG_REDIRECT, bytes@) == Some(b@),
                Err(e) => spec_parse_body(CMSG_REDIRECT, bytes@) is None && e.msg@
                    == "malformed Arrow Control Protocol message"@,
            },
    {
        let owned = slice_to_vec(bytes);
        match string_from_utf8(owned) {
            Some(target) => Ok(ControlMessageBody::Redirect(RedirectMessage { target })),
            None => Err(DecodeError::new("malformed Arrow Control Protocol message")),
        }
    }

    /// Decode a HUP body from a control message payload.
    pub fn decode_hup_message(bytes: &[u8]) -> (r: Result<ControlMessageBody, DecodeError>)
        ensures
            match r {
                Ok(b) => spec_parse_body(CMSG_HUP, bytes@) == Some(b@),
                Err(e) => spec_parse_body(CMSG_HUP, bytes@) is None && e.msg@
                    == "malformed Arrow Control Protocol message"@,
            },
    {
        if bytes.len() != 8 {
            return Err(DecodeError::new("malformed Arrow Control Protocol message"));
        }
        let session_id = read_u32_be(bytes[0], bytes[1], bytes[2], bytes[3]);
        let error_code = read_u32_be(bytes[4], bytes[5], bytes[6], bytes[7]);
        Ok(ControlMessageBody::Hup(HupMessage { session_id, error_code }))
    }

    /// Decode an empty body: the payload must hold no bytes.
    pub fn decode_empty_message(bytes: &[u8]) -> (r: Result<ControlMessageBody, DecodeError>)
        ensures
            match r {
                Ok(b) => bytes@.len() == 0 && b@ == ControlBodyModel::Empty,
                Err(e) => bytes@.len() != 0 && e.msg@
                    == "malformed Arrow Control Protocol message"@,
            },
    {
        if bytes.len() != 0 {
            return Err(DecodeError::new("malformed Arrow Control Protocol message"));
        }
        Ok(ControlMessageBody::Empty(EmptyMessage))
    }

    /// Decode a message body from a payload according to a message type.
    pub fn decode_body(mtype: ControlMessageType, bytes: &[u8]) -> (r: Result<
        ControlMessageBody,
        DecodeError,
    >)
        ensures
            match r {
                Ok(b) => forall|code: u16|
                    spec_message_type(code) == mtype ==> spec_parse_body(code, bytes@) == Some(b@),
                Err(e) => (forall|code: u16|
                    spec_message_type(code) == mtype ==> spec_parse_body(code, bytes@) is None)
                    && e.msg@ == (if mtype == ControlMessageType::UNKNOWN {
                    "unknown Arrow Control Protocol message type"@
                } else if mtype == ControlMessageType::REGISTER || mtype
                    == ControlMessageType::UPDATE || mtype == ControlMessageType::STATUS || mtype
                    == ControlMessageType::SCAN_REPORT {
                    "unexpected Arrow Control Protocol message type"@
                } else {
                    "malformed Arrow Control Protocol message"@
                }),
            },
    {
        match mtype {
            ControlMessageType::ACK => Self::decode_ack_message(bytes),
            ControlMessageType::PING => Self::decode_empty_message(bytes),
            ControlMessageType::REDIRECT => Self::decode_redirect_message(bytes),
            ControlMessageType::HUP => Self::decode_hup_message(bytes),
            ControlMessageType::RESET_SVC_TABLE => Self::decode_empty_message(bytes),
            ControlMessageType::SCAN_NETWORK => Self::decode_empty_message(bytes),
            ControlMessageType::GET_STATUS => Self::decode_empty_message(bytes),
            ControlMessageType::GET_SCAN_REPORT => Self::decode_empty_message(bytes),
            ControlMessageType::UNKNOWN => Err(
                DecodeError::new("unknown Arrow Control Protocol message type"),
            ),
            _ => Err(DecodeError::new("unexpected Arrow Control Protocol message type")),
        }
    }

    /// Decode a whole control message from a control-plane payload.
    pub fn from_bytes(bytes: &[u8]) -> (r: Result<ControlMessage, DecodeError>)
        ensures
            match r {
                Ok(m) => spec_parse_control(bytes@) == Some(m@) && m@.wf(),
                Err(e) => spec_parse_control(bytes@) is None && e.msg@ == spec_decode_failure_msg(
                    bytes@,
                ),
            },
    {
        if bytes.len() < 4 {
            return Err(DecodeError::new("malformed Arrow Control Protocol message"));
        }
        let msg_id = read_u16_be(bytes[0], bytes[1]);
        let msg_type = read_u16_be(bytes[2], bytes[3]);
        let header = ControlMessageHeader { msg_id, msg_type };
        let payload = slice_subrange(bytes, 4, bytes.len());
        assert(payload@ =~= bytes@.skip(4));
        let body = match Self::decode_body(header.message_type(), payload) {
            Ok(body) => body,
            Err(e) => {
                return Err(e);
            },
        };
        let msg = ControlMessage { header, body };
        proof {
            lemma_parse_body_wf(msg_type, bytes@.skip(4));
        }
        Ok(msg)
    }
}

/// Append all bytes of a slice to a buffer.
fn push_bytes(buf: &mut Vec<u8>, bytes: &[u8])
    ensures
        final(buf)@ == old(buf)@ + bytes@,
{
    let mut i: usize = 0;
    while i < bytes.len()
        invariant
            i <= bytes.len(),
            buf@ == old(buf)@ + bytes@.take(i as int),
        decreases bytes.len() - i,
    {
        buf.push(bytes[i]);
        i = i + 1;
        assert(bytes@.take(i as int) =~= bytes@.take(i - 1).push(bytes@[i - 1]));
    }
    assert(final(buf)@ =~= old(buf)@ + bytes@);
}

/// Relies on `String::from_utf8` from std: it returns `Ok` exactly when the
/// bytes are valid UTF-8, and the string it returns is their UTF-8 decoding.
#[verifier::external_body]
fn string_from_utf8(bytes: Vec<u8>) -> (r: Option<String>)
    ensures
        r is Some <==> valid_utf8(bytes@),
        r matches Some(s) ==> s@ == decode_utf8(bytes@),
{
    String::from_utf8(bytes).ok()
}

/// A parsed body always matches its type code.
proof fn lemma_parse_body_wf(code: u16, b: Seq<u8>)
    ensures
        spec_parse_body(code, b) matches Some(body) ==> (ControlMessageModel {
            msg_id: 0u16,
            msg_type: code,
            body,
        }).wf(),
{
}

/// Law: control messages round-trip. Parsing the encoding of any well-formed
/// control message whose type a server may send yields the message back.
pub proof fn lemma_control_round_trip(m: ControlMessageModel)
    requires
        m.wf(),
        spec_inbound_decodable(m.msg_type),
    ensures
        spec_parse_control(spec_encode_control(m)) == Some(m),
{
    broadcast use encode_utf8_valid_utf8;
    broadcast use encode_utf8_decode_utf8;

    let bytes = spec_encode_control(m);
    lemma_be16_round_trip(m.msg_id);
    lemma_be16_round_trip(m.msg_type);
    assert(bytes[0] == spec_be16(m.msg_id)[0]);
    assert(bytes[1] == spec_be16(m.msg_id)[1]);
    assert(bytes[2] == spec_be16(m.msg_type)[0]);
    assert(bytes[3] == spec_be16(m.msg_type)[1]);
    let body = bytes.skip(4);
    assert(body =~= spec_encode_body(m.body));
    match m.body {
        ControlBodyModel::Ack { err } => {
            lemma_be32_round_trip(err);
        },
        ControlBodyModel::Empty => {},
        ControlBodyModel::Hup { session_id, error_code } => {
            lemma_be32_round_trip(session_id);
            lemma_be32_round_trip(error_code);
            assert(body[4] == spec_be32(error_code)[0]);
            assert(body[5] == spec_be32(error_code)[1]);
            assert(body[6] == spec_be32(error_code)[2]);
            assert(body[7] == spec_be32(error_code)[3]);
        },
        ControlBodyModel::Redirect { target } => {},
        ControlBodyModel::Register { .. } => {},
        ControlBodyModel::Update { .. } => {},
        ControlBodyModel::Status { .. } => {},
        ControlBodyModel::ScanReport { .. } => {},
    }
}

} // verus!
