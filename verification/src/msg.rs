//! The framed unit of the Arrow protocol.
//!
//! An `ArrowMessage` carries a 16-bit `service` field and an opaque payload.
//! Service `0` is the control plane; a nonzero service identifies a session.

use vstd::prelude::*;

verus! {

/// The mathematical value of an [`ArrowMessage`].
pub struct ArrowMessageModel {
    pub service: u16,
    pub payload: Seq<u8>,
}

/// The models of a sequence of messages, element by element.
pub open spec fn msgs_view(s: Seq<ArrowMessage>) -> Seq<ArrowMessageModel> {
    s.map_values(|m: ArrowMessage| m@)
}

/// A framed unit on the wire: a service id and an opaque payload.
#[derive(Debug)]
pub struct ArrowMessage {
    /// `0` for the control plane, nonzero for a session.
    pub service: u16,
    /// The message payload.
    pub payload: Vec<u8>,
}

impl View for ArrowMessage {
    type V = ArrowMessageModel;

    open spec fn view(&self) -> ArrowMessageModel {
        ArrowMessageModel { service: self.service, payload: self.payload@ }
    }
}

impl ArrowMessage {
    /// Assemble a message from a service id and a payload.
    pub fn new(service: u16, payload: Vec<u8>) -> (r: ArrowMessage)
        ensures
            r@ == (ArrowMessageModel { service: service, payload: payload@ }),
    {
        ArrowMessage { service, payload }
    }

    /// Whether the message belongs to the control plane.
    pub fn is_control(&self) -> (r: bool)
        ensures
            r == (self.service == 0),
    {
        self.service == 0
    }
}

} // verus!
