//! Factory for outbound control messages.
//!
//! The factory owns the monotonically increasing 16-bit message-id counter.
//! Request constructors (REGISTER, UPDATE, PING) assign the next id and
//! advance the counter, wrapping at the 16-bit boundary; response
//! constructors (ACK, STATUS, SCAN_REPORT) echo the server-supplied id
//! verbatim and leave the counter alone.

use vstd::prelude::*;

use crate::control::{
    AckMessage, ControlBodyModel, ControlMessage, ControlMessageBody, ControlMessageHeader,
    ControlMessageModel, EmptyMessage, RegisterMessage, ScanReportMessage, StatusMessage,
    UpdateMessage, CMSG_ACK, CMSG_PING, CMSG_REGISTER, CMSG_SCAN_REPORT, CMSG_STATUS, CMSG_UPDATE,
};

verus! {

/// The message id that follows `n`: one more, wrapping at the 16-bit boundary.
pub open spec fn spec_next_msg_id(n: u16) -> u16 {
    if n == 0xffff {
        0u16
    } else {
        (n + 1) as u16
    }
}

/// Stateful constructor of outbound control messages.
pub struct ControlMessageFactory {
    /// The id the next request message will carry.
    pub next_msg_id: u16,
}

impl ControlMessageFactory {
    /// A fresh factory; the first request gets message id 1.
    pub fn new() -> (r: ControlMessageFactory)
        ensures
            r.next_msg_id == 1u16,
    {
        ControlMessageFactory { next_msg_id: 1 }
    }

    /// Take the next message id and advance the counter.
    fn take_msg_id(&mut self) -> (r: u16)
        ensures
            r == old(self).next_msg_id,
            final(self).next_msg_id == spec_next_msg_id(old(self).next_msg_id),
    {
        let id = self.next_msg_id;
        if self.next_msg_id == 0xffff {
            self.next_msg_id = 0;
        } else {
            self.next_msg_id = self.next_msg_id + 1;
        }
        id
    }

    /// Build a REGISTER request carrying the device identity and the encoded
    /// service table.
    pub fn register(&mut self, mac: [u8; 6], uuid: [u8; 16], password: [u8; 16], svc_table: &[u8])
        -> (r: ControlMessage)
        ensures
            r@ == (ControlMessageModel {
                msg_id: old(self).next_msg_id,
                msg_type: CMSG_REGISTER,
                body: ControlBodyModel::Register {
                    mac: mac@,
                    uuid: uuid@,
                    password: password@,
                    svc_table: svc_table@,
                },
            }),
            r@.wf(),
            final(self).next_msg_id == spec_next_msg_id(old(self).next_msg_id),
    {
        let msg_id = self.take_msg_id();
        ControlMessage::new(
            ControlMessageHeader { msg_id, msg_type: CMSG_REGISTER },
            ControlMessageBody::Register(
                RegisterMessage { mac, uuid, password, svc_table: vstd::slice::slice_to_vec(svc_table) },
            ),
        )
    }

    /// Build an UPDATE request carrying the encoded service table.
    pub fn update(&mut self, svc_table: &[u8]) -> (r: ControlMessage)
        ensures
            r@ == (ControlMessageModel {
                msg_id: old(self).next_msg_id,
                msg_type: CMSG_UPDATE,
                body: ControlBodyModel::Update { svc_table: svc_table@ },
            }),
            r@.wf(),
            final(self).next_msg_id == spec_next_msg_id(old(self).next_msg_id),
    {
        let msg_id = self.take_msg_id();
        ControlMessage::new(
            ControlMessageHeader { msg_id, msg_type: CMSG_UPDATE },
            ControlMessageBody::Update(UpdateMessage { svc_table: vstd::slice::slice_to_vec(svc_table) }),
        )
    }

    /// Build a PING request.
    pub fn ping(&mut self) -> (r: ControlMessage)
        ensures
            r@ == (ControlMessageModel {
                msg_id: old(self).next_msg_id,
                msg_type: CMSG_PING,
                body: ControlBodyModel::Empty,
            }),
            r@.wf(),
            final(self).next_msg_id == spec_next_msg_id(old(self).next_msg_id),
    {
        let msg_id = self.take_msg_id();
        ControlMessage::new(
            ControlMessageHeader { msg_id, msg_type: CMSG_PING },
            ControlMessageBody::Empty(EmptyMessage),
        )
    }

    /// Build an ACK response echoing the id of the message it answers.
    pub fn ack(&self, msg_id: u16, err: u32) -> (r: ControlMessage)
        ensures
            r@ == (ControlMessageModel {
                msg_id,
                msg_type: CMSG_ACK,
                body: ControlBodyModel::Ack { err },
            }),
            r@.wf(),
    {
        ControlMessage::new(
            ControlMessageHeader { msg_id, msg_type: CMSG_ACK },
            ControlMessageBody::Ack(AckMessage { err }),
        )
    }

    /// Build a STATUS response echoing the id of the GET_STATUS it answers.
    pub fn status(&self, msg_id: u16, status_flags: u32, active_sessions: u32) -> (r:
        ControlMessage)
        ensures
            r@ == (ControlMessageModel {
                msg_id,
                msg_type: CMSG_STATUS,
                body: ControlBodyModel::Status { status_flags, active_sessions },
            }),
            r@.wf(),
    {
        ControlMessage::new(
            ControlMessageHeader { msg_id, msg_type: CMSG_STATUS },
            ControlMessageBody::Status(StatusMessage { status_flags, active_sessions }),
        )
    }

    /// Build a SCAN_REPORT response echoing the id of the GET_SCAN_REPORT it
    /// answers.
    pub fn scan_report(&self, msg_id: u16, report: Vec<u8>) -> (r: ControlMessage)
        ensures
            r@ == (ControlMessageModel {
                msg_id,
                msg_type: CMSG_SCAN_REPORT,
                body: ControlBodyModel::ScanReport { report: report@ },
            }),
            r@.wf(),
    {
        ControlMessage::new(
            ControlMessageHeader { msg_id, msg_type: CMSG_SCAN_REPORT },
            ControlMessageBody::ScanReport(ScanReportMessage { report }),
        )
    }
}

} // verus!
