//! The Arrow protocol client engine.
//!
//! The engine is a single-owner state machine stepped by a reactor: inbound
//! frames are handed to [`ArrowClientContext::start_send`], outbound frames
//! are drawn with [`ArrowClientContext::poll`], and a one-second tick drives
//! [`ArrowClientContext::time_event`]. Every time-dependent routine takes the
//! current monotonic time in seconds, so the clock is the caller's.
//!
//! The application context of the surrounding program is mirrored in plain
//! fields: the encoded service table, the diagnostic-mode flag, the scan
//! state and the scan report are handed in at construction or through
//! setters, and commands for the surrounding program are queued and drained
//! through [`ArrowClientContext::take_command`].

use vstd::prelude::*;

use std::collections::VecDeque;

use crate::control::{
    spec_encode_control, spec_parse_control, ControlBodyModel, ControlMessage,
    ControlMessageBody, ControlMessageModel, ControlMessageType,
    ACK_INTERNAL_SERVER_ERROR, ACK_NO_ERROR, ACK_UNAUTHORIZED,
    ACK_UNSUPPORTED_PROTOCOL_VERSION, CMSG_ACK, CMSG_GET_SCAN_REPORT, CMSG_GET_STATUS, CMSG_HUP,
    CMSG_PING, CMSG_REDIRECT, CMSG_REGISTER, CMSG_RESET_SVC_TABLE, CMSG_SCAN_NETWORK,
    CMSG_SCAN_REPORT, CMSG_STATUS, CMSG_UPDATE, STATUS_FLAG_SCAN,
};
use crate::error::{ArrowError, ErrorKind};
use crate::factory::{spec_next_msg_id, ControlMessageFactory};
use crate::msg::{msgs_view, ArrowMessage, ArrowMessageModel};
use crate::session::{spec_has_session, Session, SessionManager, SessionManagerModel};
use crate::tracker::{ExpectedAck, PendingAckTracker, ACK_TIMEOUT};

verus! {

/// Seconds between PING probes in the Established state.
pub const PING_PERIOD: u64 = 60;

/// Seconds between checks of the service table for an UPDATE.
pub const UPDATE_CHECK_PERIOD: u64 = 5;

/// Arrow protocol states.
#[derive(Copy, Clone, Eq, PartialEq, Structural, Debug)]
pub enum ProtocolState {
    Handshake,
    Established,
}

/// Law: no state other than `Handshake` or `Established` is ever observed;
/// the state space holds nothing else.
pub proof fn lemma_state_space(s: ProtocolState)
    ensures
        s == ProtocolState::Handshake || s == ProtocolState::Established,
{
    match s {
        ProtocolState::Handshake => {},
        ProtocolState::Established => {},
    }
}

/// A command the engine forwards to the surrounding program.
#[derive(Copy, Clone, Eq, PartialEq, Structural, Debug)]
pub enum Command {
    ResetServiceTable,
    ScanNetwork,
}

/// What an outbound poll produced.
#[derive(Debug)]
pub enum PollOutput {
    /// The next frame to put on the wire.
    Message(ArrowMessage),
    /// The engine closed cleanly; the redirect is set.
    Closed,
    /// Nothing to send right now; poll again after the next event.
    Pending,
}

/// The mathematical value of the engine.
pub struct EngineModel {
    pub state: ProtocolState,
    /// Outbound queue, front first.
    pub messages: Seq<ArrowMessageModel>,
    /// FIFO of expected ACKs, front first.
    pub expected_acks: Seq<ExpectedAck>,
    /// Commands owed to the surrounding program, front first.
    pub commands: Seq<Command>,
    pub sessions: SessionManagerModel,
    /// The redirect target, once the server ordered one (or the empty string
    /// in diagnostic mode).
    pub redirect: Option<Seq<char>>,
    pub last_ping: u64,
    pub last_update_chck: u64,
    pub next_msg_id: u16,
    pub diagnostic_mode: bool,
    pub scanning: bool,
    pub scan_report: Seq<u8>,
    pub svc_table: Seq<u8>,
}

/// The control-plane frame carrying a control message.
pub open spec fn spec_arrow_of(cm: ControlMessageModel) -> ArrowMessageModel {
    ArrowMessageModel { service: 0u16, payload: spec_encode_control(cm) }
}

/// The PING request with a given id.
pub open spec fn spec_ping_model(msg_id: u16) -> ControlMessageModel {
    ControlMessageModel { msg_id, msg_type: CMSG_PING, body: ControlBodyModel::Empty }
}

/// The REGISTER request with a given id and identity.
pub open spec fn spec_register_model(
    msg_id: u16,
    mac: Seq<u8>,
    uuid: Seq<u8>,
    password: Seq<u8>,
    svc_table: Seq<u8>,
) -> ControlMessageModel {
    ControlMessageModel {
        msg_id,
        msg_type: CMSG_REGISTER,
        body: ControlBodyModel::Register { mac, uuid, password, svc_table },
    }
}

/// The UPDATE message with a given id and table.
pub open spec fn spec_update_model(msg_id: u16, svc_table: Seq<u8>) -> ControlMessageModel {
    ControlMessageModel { msg_id, msg_type: CMSG_UPDATE, body: ControlBodyModel::Update { svc_table } }
}

/// The ACK response with a given id and error code.
pub open spec fn spec_ack_model(msg_id: u16, err: u32) -> ControlMessageModel {
    ControlMessageModel { msg_id, msg_type: CMSG_ACK, body: ControlBodyModel::Ack { err } }
}

/// The STATUS response with a given id, flags and session count.
pub open spec fn spec_status_model(msg_id: u16, status_flags: u32, active_sessions: u32)
    -> ControlMessageModel {
    ControlMessageModel {
        msg_id,
        msg_type: CMSG_STATUS,
        body: ControlBodyModel::Status { status_flags, active_sessions },
    }
}

/// The SCAN_REPORT response with a given id and report.
pub open spec fn spec_scan_report_model(msg_id: u16, report: Seq<u8>) -> ControlMessageModel {
    ControlMessageModel {
        msg_id,
        msg_type: CMSG_SCAN_REPORT,
        body: ControlBodyModel::ScanReport { report },
    }
}

/// Whether the head of the pending-ACK FIFO has timed out at `now`.
pub open spec fn spec_ack_timeout(m: EngineModel, now: u64) -> bool {
    m.expected_acks.len() > 0 && m.expected_acks[0].deadline <= now
}

/// An `Other` error with an exact message.
pub open spec fn spec_err_other(r: Result<(), ArrowError>, msg: Seq<char>) -> bool {
    r matches Err(e) && e.kind == ErrorKind::Other && e.msg@ == msg
}

/// The Arrow client engine: protocol state machine, outbound queue, pending
/// ACKs, session multiplexer, and the redirect slot.
pub struct ArrowClientContext {
    cmsg_factory: ControlMessageFactory,
    sessions: SessionManager,
    messages: VecDeque<ArrowMessage>,
    expected_acks: PendingAckTracker,
    commands: VecDeque<Command>,
    state: ProtocolState,
    redirect: Option<String>,
    last_ping: u64,
    last_update_chck: u64,
    diagnostic_mode: bool,
    scanning: bool,
    scan_report: Vec<u8>,
    svc_table: Vec<u8>,
}

impl View for ArrowClientContext {
    type V = EngineModel;

    closed spec fn view(&self) -> EngineModel {
        EngineModel {
            state: self.state,
            messages: msgs_view(self.messages@),
            expected_acks: self.expected_acks@,
            commands: self.commands@,
            sessions: self.sessions@,
            redirect: match self.redirect {
                Some(s) => Some(s@),
                None => None,
            },
            last_ping: self.last_ping,
            last_update_chck: self.last_update_chck,
            next_msg_id: self.cmsg_factory.next_msg_id,
            diagnostic_mode: self.diagnostic_mode,
            scanning: self.scanning,
            scan_report: self.scan_report@,
            svc_table: self.svc_table@,
        }
    }
}

impl ArrowClientContext {
    /// Well-formedness: the session table has unique ids.
    pub open spec fn wf(&self) -> bool {
        crate::session::spec_sessions_unique(self@.sessions.active)
    }

    /// Create a new engine. It starts in `Handshake` with a REGISTER request
    /// for the given identity already queued and its ACK expected.
    pub fn new(
        mac: [u8; 6],
        uuid: [u8; 16],
        password: [u8; 16],
        svc_table: Vec<u8>,
        diagnostic_mode: bool,
        now: u64,
    ) -> (r: ArrowClientContext)
        requires
            now + ACK_TIMEOUT <= u64::MAX,
        ensures
            r.wf(),
            r@.state == ProtocolState::Handshake,
            r@.redirect is None,
            r@.messages == seq![
                spec_arrow_of(spec_register_model(1u16, mac@, uuid@, password@, svc_table@)),
            ],
            r@.expected_acks == seq![
                ExpectedAck { msg_id: 1u16, deadline: (now + ACK_TIMEOUT) as u64 },
            ],
            r@.commands == Seq::<Command>::empty(),
            r@.sessions.active == Seq::<Session>::empty(),
            r@.sessions.delivered == Seq::<ArrowMessageModel>::empty(),
            r@.sessions.output == Seq::<ArrowMessageModel>::empty(),
            r@.last_ping == now,
            r@.last_update_chck == now,
            r@.next_msg_id == 2u16,
            r@.diagnostic_mode == diagnostic_mode,
            r@.scanning == false,
            r@.scan_report == Seq::<u8>::empty(),
            r@.svc_table == svc_table@,
    {
        let mut client = ArrowClientContext {
            cmsg_factory: ControlMessageFactory::new(),
            sessions: SessionManager::new(),
            messages: VecDeque::new(),
            expected_acks: PendingAckTracker::new(),
            commands: VecDeque::new(),
            state: ProtocolState::Handshake,
            redirect: None,
            last_ping: now,
            last_update_chck: now,
            diagnostic_mode,
            scanning: false,
            scan_report: Vec::new(),
            svc_table,
        };
        client.send_register_message(mac, uuid, password, now);
        proof {
            assert(client@.messages =~= seq![
                spec_arrow_of(spec_register_model(1u16, mac@, uuid@, password@, client@.svc_table)),
            ]);
            assert(client@.expected_acks =~= seq![
                ExpectedAck { msg_id: 1u16, deadline: (now + ACK_TIMEOUT) as u64 },
            ]);
        }
        client
    }

    /// The redirect address, once the engine has closed.
    pub fn get_redirect(&self) -> (r: Option<String>)
        ensures
            match r {
                Some(s) => self@.redirect == Some(s@),
                None => self@.redirect is None,
            },
    {
        match &self.redirect {
            Some(s) => Some(s.clone()),
            None => None,
        }
    }

    /// Whether the engine has been closed by a redirect.
    pub fn is_closed(&self) -> (r: bool)
        ensures
            r == (self@.redirect is Some),
    {
        self.redirect.is_some()
    }

    /// Whether the earliest outstanding ACK has timed out at `now`.
    pub fn ack_timeout(&self, now: u64) -> (r: bool)
        ensures
            r == spec_ack_timeout(self@, now),
    {
        self.expected_acks.head_expired(now)
    }

    /// The current protocol state.
    pub fn state(&self) -> (r: ProtocolState)
        ensures
            r == self@.state,
    {
        self.state
    }

    /// The number of ACKs still outstanding.
    pub fn pending_ack_count(&self) -> (r: usize)
        ensures
            r == self@.expected_acks.len(),
    {
        self.expected_acks.len()
    }

    /// The time the last PING was sent (or construction time).
    pub fn last_ping(&self) -> (r: u64)
        ensures
            r == self@.last_ping,
    {
        self.last_ping
    }

    /// The number of active sessions.
    pub fn session_count(&self) -> (r: usize)
        ensures
            r == self@.sessions.active.len(),
    {
        self.sessions.len()
    }

    /// Take the next command owed to the surrounding program, if any.
    pub fn take_command(&mut self) -> (r: Option<Command>)
        ensures
            final(self)@ == (EngineModel { commands: final(self)@.commands, ..old(self)@ }),
            match r {
                Some(c) => old(self)@.commands.len() > 0 && c == old(self)@.commands[0] && final(self)@.commands == old(self)@.commands.drop_first(),
                None => old(self)@.commands.len() == 0 && final(self)@.commands == old(
                    self,
                )@.commands,
            },
    {
        let r = self.commands.pop_front();
        proof {
            if old(self)@.commands.len() > 0 {
                assert(final(self)@.commands =~= old(self)@.commands.drop_first());
            }
        }
        r
    }

    /// Insert a control message into the output queue.
    pub fn send_control_message(&mut self, msg: ControlMessage)
        ensures
            final(self)@ == (EngineModel {
                messages: old(self)@.messages.push(spec_arrow_of(msg@)),
                ..old(self)@
            }),
    {
        self.messages.push_back(msg.into_arrow_message());
        proof {
            assert(final(self)@.messages =~= old(self)@.messages.push(spec_arrow_of(msg@)));
        }
    }

    /// Insert a control message into the output queue and record the ACK it
    /// expects, with the deadline starting at `now`.
    pub fn send_unconfirmed_control_message(&mut self, msg: ControlMessage, now: u64)
        requires
            now + ACK_TIMEOUT <= u64::MAX,
        ensures
            final(self)@ == (EngineModel {
                messages: old(self)@.messages.push(spec_arrow_of(msg@)),
                expected_acks: old(self)@.expected_acks.push(
                    ExpectedAck { msg_id: msg@.msg_id, deadline: (now + ACK_TIMEOUT) as u64 },
                ),
                ..old(self)@
            }),
    {
        let msg_id = msg.header().msg_id;
        self.expected_acks.push(msg_id, now);
        self.send_control_message(msg);
    }

    /// Queue the REGISTER request for the given identity and expect its ACK.
    pub fn send_register_message(&mut self, mac: [u8; 6], uuid: [u8; 16], password: [u8; 16], now: u64)
        requires
            now + ACK_TIMEOUT <= u64::MAX,
        ensures
            final(self)@ == (EngineModel {
                messages: old(self)@.messages.push(
                    spec_arrow_of(
                        spec_register_model(
                            old(self)@.next_msg_id,
                            mac@,
                            uuid@,
                            password@,
                            old(self)@.svc_table,
                        ),
                    ),
                ),
                expected_acks: old(self)@.expected_acks.push(
                    ExpectedAck {
                        msg_id: old(self)@.next_msg_id,
                        deadline: (now + ACK_TIMEOUT) as u64,
                    },
                ),
                next_msg_id: spec_next_msg_id(old(self)@.next_msg_id),
                ..old(self)@
            }),
    {
        let msg = self.cmsg_factory.register(mac, uuid, password, self.svc_table.as_slice());
        self.send_unconfirmed_control_message(msg, now);
    }

    /// Queue an UPDATE message carrying the current service table.
    pub fn send_update_message(&mut self)
        ensures
            final(self)@ == (EngineModel {
                messages: old(self)@.messages.push(
                    spec_arrow_of(spec_update_model(old(self)@.next_msg_id, old(self)@.svc_table)),
                ),
                next_msg_id: spec_next_msg_id(old(self)@.next_msg_id),
                ..old(self)@
            }),
    {
        let msg = self.cmsg_factory.update(self.svc_table.as_slice());
        self.send_control_message(msg);
    }

    /// Queue a PING request, expect its ACK, and remember when it was sent.
    pub fn send_ping_message(&mut self, now: u64)
        requires
            now + ACK_TIMEOUT <= u64::MAX,
        ensures
            final(self)@ == (EngineModel {
                messages: old(self)@.messages.push(
                    spec_arrow_of(spec_ping_model(old(self)@.next_msg_id)),
                ),
                expected_acks: old(self)@.expected_acks.push(
                    ExpectedAck {
                        msg_id: old(self)@.next_msg_id,
                        deadline: (now + ACK_TIMEOUT) as u64,
                    },
                ),
                next_msg_id: spec_next_msg_id(old(self)@.next_msg_id),
                last_ping: now,
                ..old(self)@
            }),
    {
        let msg = self.cmsg_factory.ping();
        self.send_unconfirmed_control_message(msg, now);
        self.last_ping = now;
    }

    /// Send an UPDATE if the service table changed since the last check. The
    /// check is conservative: the table is always considered dirty.
    pub fn check_for_updates(&mut self, now: u64)
        ensures
            final(self)@ == (EngineModel {
                messages: old(self)@.messages.push(
                    spec_arrow_of(spec_update_model(old(self)@.next_msg_id, old(self)@.svc_table)),
                ),
                next_msg_id: spec_next_msg_id(old(self)@.next_msg_id),
                last_update_chck: now,
                ..old(self)@
            }),
    {
        let updated = true;
        if updated {
            self.send_update_message();
        }
        self.last_update_chck = now;
    }

    /// Trigger the periodic tasks at time `now`: a PING every `PING_PERIOD`
    /// seconds and an update check every `UPDATE_CHECK_PERIOD` seconds, both
    /// only in the Established state.
    pub fn time_event(&mut self, now: u64)
        requires
            now + ACK_TIMEOUT <= u64::MAX,
        ensures
            old(self)@.state != ProtocolState::Established ==> final(self)@ == old(self)@,
            old(self)@.state == ProtocolState::Established ==> final(self)@ == spec_time_event(
                old(self)@,
                now,
            ),
    {
        if matches!(self.state, ProtocolState::Established) {
            if self.last_ping <= u64::MAX - PING_PERIOD && self.last_ping + PING_PERIOD <= now {
                self.send_ping_message(now);
            }
            if self.last_update_chck <= u64::MAX - UPDATE_CHECK_PERIOD && self.last_update_chck
                + UPDATE_CHECK_PERIOD <= now {
                self.check_for_updates(now);
            }
        }
    }
}

/// What processing the ACK of the handshake REGISTER does: on no error the
/// engine is established (and closes at once with an empty redirect in
/// diagnostic mode); each rejection code maps to its error.
pub open spec fn spec_handshake_ack_step(
    pre: EngineModel,
    err: u32,
    post: EngineModel,
    r: Result<(), ArrowError>,
) -> bool {
    if err == ACK_NO_ERROR {
        post == (EngineModel {
            state: ProtocolState::Established,
            redirect: if pre.diagnostic_mode {
                Some(Seq::<char>::empty())
            } else {
                pre.redirect
            },
            ..pre
        }) && r is Ok
    } else if err == ACK_UNAUTHORIZED {
        &&& post == pre
        &&& r matches Err(e) && e.kind == ErrorKind::Unauthorized && e.msg@
            == "Arrow REGISTER failed (unauthorized)"@
    } else if err == ACK_UNSUPPORTED_PROTOCOL_VERSION {
        &&& post == pre
        &&& r matches Err(e) && e.kind == ErrorKind::UnsupportedProtocolVersion
            && e.msg@ == "Arrow REGISTER failed (unsupported version of the Arrow Protocol)"@
    } else if err == ACK_INTERNAL_SERVER_ERROR {
        &&& post == pre
        &&& r matches Err(e) && e.kind == ErrorKind::ArrowServerError && e.msg@
            == "Arrow REGISTER failed (internal server error)"@
    } else {
        post == pre && spec_err_other(r, "Arrow REGISTER failed (unknown error)"@)
    }
}

/// What processing an inbound ACK does: the head of the pending-ACK FIFO is
/// popped and must carry the ACK's id; an empty FIFO or a reordered ACK is
/// fatal; the handshake ACK selects the state transition.
pub open spec fn spec_ack_step(
    pre: EngineModel,
    cm: ControlMessageModel,
    post: EngineModel,
    r: Result<(), ArrowError>,
) -> bool {
    if pre.expected_acks.len() == 0 {
        post == pre && spec_err_other(r, "no ACK message expected"@)
    } else {
        let popped = EngineModel { expected_acks: pre.expected_acks.drop_first(), ..pre };
        if pre.expected_acks[0].msg_id != cm.msg_id {
            post == popped && spec_err_other(r, "unexpected ACK message ID"@)
        } else if pre.state == ProtocolState::Handshake {
            cm.body matches ControlBodyModel::Ack { err } && spec_handshake_ack_step(
                popped,
                err,
                post,
                r,
            )
        } else {
            post == popped && r is Ok
        }
    }
}

/// What processing an inbound PING does: in Established, an ACK reply echoing
/// the id is queued; in Handshake it is fatal.
pub open spec fn spec_ping_step(
    pre: EngineModel,
    cm: ControlMessageModel,
    post: EngineModel,
    r: Result<(), ArrowError>,
) -> bool {
    if pre.state != ProtocolState::Established {
        post == pre && spec_err_other(r, "cannot handle PING message in the Handshake state"@)
    } else {
        post == (EngineModel {
            messages: pre.messages.push(spec_arrow_of(spec_ack_model(cm.msg_id, 0u32))),
            ..pre
        }) && r is Ok
    }
}

/// Closing a session: the entry carrying the id leaves the table; without one
/// the table is unchanged.
pub open spec fn spec_session_close_rel(pre: Seq<Session>, post: Seq<Session>, id: u32) -> bool {
    &&& (!spec_has_session(pre, id) ==> post == pre)
    &&& (spec_has_session(pre, id) ==> exists|k: int|
        0 <= k < pre.len() && pre[k].session_id == id && post == pre.remove(k))
    &&& !spec_has_session(post, id)
}

/// What processing an inbound HUP does: in Established, the named session is
/// closed; in Handshake it is fatal.
pub open spec fn spec_hup_step(
    pre: EngineModel,
    cm: ControlMessageModel,
    post: EngineModel,
    r: Result<(), ArrowError>,
) -> bool {
    if pre.state != ProtocolState::Established {
        post == pre && spec_err_other(r, "cannot handle HUP message in the Handshake state"@)
    } else {
        &&& cm.body matches ControlBodyModel::Hup { session_id, error_code }
        &&& r is Ok
        &&& post == (EngineModel { sessions: post.sessions, ..pre })
        &&& post.sessions.delivered == pre.sessions.delivered
        &&& post.sessions.output == pre.sessions.output
        &&& (cm.body matches ControlBodyModel::Hup { session_id, .. } ==> spec_session_close_rel(
            pre.sessions.active,
            post.sessions.active,
            session_id,
        ))
    }
}

/// What processing an inbound REDIRECT does: in Established, the redirect is
/// set and the engine enters closing; in Handshake it is fatal.
pub open spec fn spec_redirect_step(
    pre: EngineModel,
    cm: ControlMessageModel,
    post: EngineModel,
    r: Result<(), ArrowError>,
) -> bool {
    if pre.state != ProtocolState::Established {
        post == pre && spec_err_other(r, "cannot handle REDIRECT message in the Handshake state"@)
    } else {
        &&& cm.body matches ControlBodyModel::Redirect { target }
        &&& post == (EngineModel { redirect: Some(target), ..pre })
        &&& r is Ok
    }
}

/// The session count reported in STATUS: the table size, saturated to 32
/// bits.
pub open spec fn spec_reported_sessions(m: EngineModel) -> u32 {
    if m.sessions.active.len() >= 0xffffffff {
        0xffffffffu32
    } else {
        m.sessions.active.len() as u32
    }
}

/// What processing an inbound GET_STATUS does: in Established, a STATUS reply
/// echoing the id is queued, carrying the scan flag and the session count; in
/// Handshake it is fatal.
pub open spec fn spec_get_status_step(
    pre: EngineModel,
    cm: ControlMessageModel,
    post: EngineModel,
    r: Result<(), ArrowError>,
) -> bool {
    if pre.state != ProtocolState::Established {
        post == pre && spec_err_other(r, "cannot handle GET_STATUS message in the Handshake state"@)
    } else {
        let flags = if pre.scanning {
            STATUS_FLAG_SCAN
        } else {
            0u32
        };
        post == (EngineModel {
            messages: pre.messages.push(
                spec_arrow_of(spec_status_model(cm.msg_id, flags, spec_reported_sessions(pre))),
            ),
            ..pre
        }) && r is Ok
    }
}

/// What processing an inbound GET_SCAN_REPORT does: in Established, a
/// SCAN_REPORT reply echoing the id is queued; in Handshake it is fatal.
pub open spec fn spec_get_scan_report_step(
    pre: EngineModel,
    cm: ControlMessageModel,
    post: EngineModel,
    r: Result<(), ArrowError>,
) -> bool {
    if pre.state != ProtocolState::Established {
        post == pre && spec_err_other(
            r,
            "cannot handle GET_SCAN_REPORT message in the Handshake state"@,
        )
    } else {
        post == (EngineModel {
            messages: pre.messages.push(
                spec_arrow_of(spec_scan_report_model(cm.msg_id, pre.scan_report)),
            ),
            ..pre
        }) && r is Ok
    }
}

/// What forwarding a command does: in Established, the command is queued for
/// the surrounding program; in Handshake it is fatal.
pub open spec fn spec_command_step(
    pre: EngineModel,
    cmd: Command,
    post: EngineModel,
    r: Result<(), ArrowError>,
) -> bool {
    if pre.state != ProtocolState::Established {
        post == pre && spec_err_other(
            r,
            if cmd == Command::ResetServiceTable {
                "cannot handle the ResetServiceTable command in the Handshake state"@
            } else {
                "cannot handle the ScanNetwork command in the Handshake state"@
            },
        )
    } else {
        post == (EngineModel { commands: pre.commands.push(cmd), ..pre }) && r is Ok
    }
}

/// What processing a service-request frame does: in Established it is routed
/// to its session, creating the session on first sight; in Handshake it is
/// fatal.
pub open spec fn spec_service_step(
    pre: EngineModel,
    am: ArrowMessageModel,
    post: EngineModel,
    r: Result<(), ArrowError>,
) -> bool {
    if pre.state != ProtocolState::Established {
        post == pre && spec_err_other(r, "cannot handle service requests in the Handshake state"@)
    } else {
        &&& r is Ok
        &&& post == (EngineModel { sessions: post.sessions, ..pre })
        &&& post.sessions.delivered == pre.sessions.delivered.push(am)
        &&& post.sessions.output == pre.sessions.output
        &&& (spec_has_session(pre.sessions.active, am.service as u32) ==> post.sessions.active
            == pre.sessions.active)
        &&& (!spec_has_session(pre.sessions.active, am.service as u32) ==> post.sessions.active
            == pre.sessions.active.push(Session { session_id: am.service as u32 }))
    }
}

/// What processing a control-plane payload does: decode, then dispatch on the
/// message type. A payload that does not decode is fatal and changes nothing.
pub open spec fn spec_control_step(
    pre: EngineModel,
    payload: Seq<u8>,
    post: EngineModel,
    r: Result<(), ArrowError>,
) -> bool {
    match spec_parse_control(payload) {
        None => {
            &&& post == pre
            &&& r matches Err(e) && e.kind == ErrorKind::Other && e.msg@
                == crate::control::spec_decode_failure_msg(payload)
        },
        Some(cm) => if cm.msg_type == CMSG_ACK {
            spec_ack_step(pre, cm, post, r)
        } else if cm.msg_type == CMSG_PING {
            spec_ping_step(pre, cm, post, r)
        } else if cm.msg_type == CMSG_HUP {
            spec_hup_step(pre, cm, post, r)
        } else if cm.msg_type == CMSG_REDIRECT {
            spec_redirect_step(pre, cm, post, r)
        } else if cm.msg_type == CMSG_GET_STATUS {
            spec_get_status_step(pre, cm, post, r)
        } else if cm.msg_type == CMSG_GET_SCAN_REPORT {
            spec_get_scan_report_step(pre, cm, post, r)
        } else if cm.msg_type == CMSG_RESET_SVC_TABLE {
            spec_command_step(pre, Command::ResetServiceTable, post, r)
        } else if cm.msg_type == CMSG_SCAN_NETWORK {
            spec_command_step(pre, Command::ScanNetwork, post, r)
        } else {
            false
        },
    }
}

/// What handing any inbound frame to the engine does: a closed engine
/// discards it silently; a control frame is decoded and dispatched; a session
/// frame is routed to the session manager.
pub open spec fn spec_start_send_step(
    pre: EngineModel,
    am: ArrowMessageModel,
    post: EngineModel,
    r: Result<(), ArrowError>,
) -> bool {
    if pre.redirect is Some {
        post == pre && r is Ok
    } else if am.service == 0 {
        spec_control_step(pre, am.payload, post, r)
    } else {
        spec_service_step(pre, am, post, r)
    }
}

/// The engine after the periodic tasks fire at time `now` in the Established
/// state: a PING when one is due, then an UPDATE check when one is due.
pub open spec fn spec_time_event(m: EngineModel, now: u64) -> EngineModel {
    let after_ping = if m.last_ping + PING_PERIOD <= now {
        EngineModel {
            messages: m.messages.push(spec_arrow_of(spec_ping_model(m.next_msg_id))),
            expected_acks: m.expected_acks.push(
                ExpectedAck { msg_id: m.next_msg_id, deadline: (now + ACK_TIMEOUT) as u64 },
            ),
            next_msg_id: spec_next_msg_id(m.next_msg_id),
            last_ping: now,
            ..m
        }
    } else {
        m
    };
    if after_ping.last_update_chck + UPDATE_CHECK_PERIOD <= now {
        EngineModel {
            messages: after_ping.messages.push(
                spec_arrow_of(spec_update_model(after_ping.next_msg_id, after_ping.svc_table)),
            ),
            next_msg_id: spec_next_msg_id(after_ping.next_msg_id),
            last_update_chck: now,
            ..after_ping
        }
    } else {
        after_ping
    }
}

impl ArrowClientContext {
    /// Process an inbound ACK: pop the head of the pending-ACK FIFO, which
    /// must carry the ACK's id; in Handshake the ACK's error code selects the
    /// state transition.
    pub fn process_ack_message(&mut self, msg: ControlMessage) -> (r: Result<(), ArrowError>)
        requires
            old(self).wf(),
            msg@.wf(),
            msg@.msg_type == CMSG_ACK,
        ensures
            final(self).wf(),
            spec_ack_step(old(self)@, msg@, final(self)@, r),
    {
        let msg_id = msg.header().msg_id;
        match self.expected_acks.pop_front() {
            None => Err(ArrowError::other("no ACK message expected")),
            Some(expected) => {
                if msg_id == expected.msg_id {
                    if matches!(self.state, ProtocolState::Handshake) {
                        self.process_handshake_ack(msg)
                    } else {
                        Ok(())
                    }
                } else {
                    Err(ArrowError::other("unexpected ACK message ID"))
                }
            },
        }
    }

    /// Process the ACK of the handshake REGISTER: no error establishes the
    /// connection (and, in diagnostic mode, closes at once with an empty
    /// redirect); each rejection code maps to its error.
    pub fn process_handshake_ack(&mut self, msg: ControlMessage) -> (r: Result<(), ArrowError>)
        requires
            old(self).wf(),
            msg@.body is Ack,
        ensures
            final(self).wf(),
            msg@.body matches ControlBodyModel::Ack { err } ==> spec_handshake_ack_step(
                old(self)@,
                err,
                final(self)@,
                r,
            ),
    {
        let err = match msg.body() {
            ControlMessageBody::Ack(a) => a.err,
            _ => {
                proof {
                    assert(false);
                }
                0
            },
        };
        if err == ACK_NO_ERROR {
            self.state = ProtocolState::Established;
            if self.diagnostic_mode {
                self.redirect = Some(String::new());
            }
            Ok(())
        } else if err == ACK_UNAUTHORIZED {
            Err(ArrowError::unauthorized("Arrow REGISTER failed (unauthorized)"))
        } else if err == ACK_UNSUPPORTED_PROTOCOL_VERSION {
            Err(
                ArrowError::unsupported_protocol_version(
                    "Arrow REGISTER failed (unsupported version of the Arrow Protocol)",
                ),
            )
        } else if err == ACK_INTERNAL_SERVER_ERROR {
            Err(ArrowError::arrow_server_error("Arrow REGISTER failed (internal server error)"))
        } else {
            Err(ArrowError::other("Arrow REGISTER failed (unknown error)"))
        }
    }

    /// Process an inbound PING: reply with an ACK echoing its id.
    pub fn process_ping_message(&mut self, msg: ControlMessage) -> (r: Result<(), ArrowError>)
        requires
            old(self).wf(),
        ensures
            final(self).wf(),
            spec_ping_step(old(self)@, msg@, final(self)@, r),
    {
        if !matches!(self.state, ProtocolState::Established) {
            return Err(ArrowError::other("cannot handle PING message in the Handshake state"));
        }
        let ack = self.cmsg_factory.ack(msg.header().msg_id, 0x00);
        self.send_control_message(ack);
        Ok(())
    }

    /// Process an inbound HUP: close the named session.
    pub fn process_hup_message(&mut self, msg: ControlMessage) -> (r: Result<(), ArrowError>)
        requires
            old(self).wf(),
            msg@.body is Hup,
        ensures
            final(self).wf(),
            spec_hup_step(old(self)@, msg@, final(self)@, r),
    {
        if !matches!(self.state, ProtocolState::Established) {
            return Err(ArrowError::other("cannot handle HUP message in the Handshake state"));
        }
        let (session_id, error_code) = match msg.body() {
            ControlMessageBody::Hup(h) => (h.session_id, h.error_code),
            _ => {
                proof {
                    assert(false);
                }
                (0, 0)
            },
        };
        self.sessions.close(session_id, error_code);
        Ok(())
    }

    /// Process an inbound REDIRECT: set the redirect target; the engine
    /// accepts no further work and its outbound stream ends cleanly.
    pub fn process_redirect_message(&mut self, msg: ControlMessage) -> (r: Result<(), ArrowError>)
        requires
            old(self).wf(),
            msg@.body is Redirect,
        ensures
            final(self).wf(),
            spec_redirect_step(old(self)@, msg@, final(self)@, r),
    {
        if !matches!(self.state, ProtocolState::Established) {
            return Err(ArrowError::other("cannot handle REDIRECT message in the Handshake state"));
        }
        let target = match msg.body() {
            ControlMessageBody::Redirect(m) => m.target.clone(),
            _ => {
                proof {
                    assert(false);
                }
                String::new()
            },
        };
        self.redirect = Some(target);
        Ok(())
    }

    /// Process an inbound GET_STATUS: reply with a STATUS carrying the scan
    /// flag and the session count.
    pub fn process_get_status_message(&mut self, msg: ControlMessage) -> (r: Result<
        (),
        ArrowError,
    >)
        requires
            old(self).wf(),
        ensures
            final(self).wf(),
            spec_get_status_step(old(self)@, msg@, final(self)@, r),
    {
        if !matches!(self.state, ProtocolState::Established) {
            return Err(
                ArrowError::other("cannot handle GET_STATUS message in the Handshake state"),
            );
        }
        let status_flags: u32 = if self.scanning {
            STATUS_FLAG_SCAN
        } else {
            0
        };
        let n = self.sessions.len();
        let active_sessions: u32 = if n >= 0xffffffffusize {
            0xffffffff
        } else {
            n as u32
        };
        let reply = self.cmsg_factory.status(msg.header().msg_id, status_flags, active_sessions);
        self.send_control_message(reply);
        Ok(())
    }

    /// Process an inbound GET_SCAN_REPORT: reply with a SCAN_REPORT carrying
    /// the current report.
    pub fn process_get_scan_report_message(&mut self, msg: ControlMessage) -> (r: Result<
        (),
        ArrowError,
    >)
        requires
            old(self).wf(),
        ensures
            final(self).wf(),
            spec_get_scan_report_step(old(self)@, msg@, final(self)@, r),
    {
        if !matches!(self.state, ProtocolState::Established) {
            return Err(
                ArrowError::other("cannot handle GET_SCAN_REPORT message in the Handshake state"),
            );
        }
        let report = vstd::slice::slice_to_vec(self.scan_report.as_slice());
        let reply = self.cmsg_factory.scan_report(msg.header().msg_id, report);
        self.send_control_message(reply);
        Ok(())
    }

    /// Forward a command to the surrounding program.
    pub fn process_command(&mut self, cmd: Command) -> (r: Result<(), ArrowError>)
        requires
            old(self).wf(),
        ensures
            final(self).wf(),
            spec_command_step(old(self)@, cmd, final(self)@, r),
    {
        if !matches!(self.state, ProtocolState::Established) {
            let msg = match cmd {
                Command::ResetServiceTable => {
                    "cannot handle the ResetServiceTable command in the Handshake state"
                },
                Command::ScanNetwork => {
                    "cannot handle the ScanNetwork command in the Handshake state"
                },
            };
            return Err(ArrowError::other(msg));
        }
        self.commands.push_back(cmd);
        proof {
            assert(final(self)@.commands =~= old(self)@.commands.push(cmd));
        }
        Ok(())
    }

    /// Route an inbound service-request frame to the session manager.
    pub fn process_service_request_message(&mut self, msg: ArrowMessage) -> (r: Result<
        (),
        ArrowError,
    >)
        requires
            old(self).wf(),
            msg@.service != 0,
        ensures
            final(self).wf(),
            spec_service_step(old(self)@, msg@, final(self)@, r),
    {
        if !matches!(self.state, ProtocolState::Established) {
            return Err(ArrowError::other("cannot handle service requests in the Handshake state"));
        }
        self.sessions.send(msg);
        Ok(())
    }

    /// Decode an inbound control-plane frame and dispatch it by type.
    pub fn process_control_protocol_message(&mut self, msg: ArrowMessage) -> (r: Result<
        (),
        ArrowError,
    >)
        requires
            old(self).wf(),
        ensures
            final(self).wf(),
            spec_control_step(old(self)@, msg@.payload, final(self)@, r),
    {
        let cm = match ControlMessage::from_bytes(msg.payload.as_slice()) {
            Ok(cm) => cm,
            Err(e) => {
                return Err(e.into_arrow_error());
            },
        };
        match cm.header().message_type() {
            ControlMessageType::ACK => self.process_ack_message(cm),
            ControlMessageType::PING => self.process_ping_message(cm),
            ControlMessageType::HUP => self.process_hup_message(cm),
            ControlMessageType::REDIRECT => self.process_redirect_message(cm),
            ControlMessageType::GET_STATUS => self.process_get_status_message(cm),
            ControlMessageType::GET_SCAN_REPORT => self.process_get_scan_report_message(cm),
            ControlMessageType::RESET_SVC_TABLE => self.process_command(
                Command::ResetServiceTable,
            ),
            ControlMessageType::SCAN_NETWORK => self.process_command(Command::ScanNetwork),
            _ => {
                proof {
                    assert(false);
                }
                Err(ArrowError::other("unexpected control message received"))
            },
        }
    }

    /// Hand an inbound frame to the engine. A closed engine discards it
    /// silently; a control frame is decoded and dispatched; a session frame
    /// is routed to its session.
    pub fn start_send(&mut self, msg: ArrowMessage) -> (r: Result<(), ArrowError>)
        requires
            old(self).wf(),
        ensures
            final(self).wf(),
            spec_start_send_step(old(self)@, msg@, final(self)@, r),
    {
        if self.is_closed() {
            return Ok(());
        }
        if msg.is_control() {
            self.process_control_protocol_message(msg)
        } else {
            self.process_service_request_message(msg)
        }
    }

    /// Outbound completion: the engine buffers nothing below the queue, so
    /// flushing is always complete.
    pub fn poll_complete(&mut self) -> (r: Result<(), ArrowError>)
        ensures
            final(self)@ == old(self)@,
            r is Ok,
    {
        Ok(())
    }

    /// Draw the next outbound frame. An expired head of the pending-ACK FIFO
    /// is fatal; a closed engine ends the stream cleanly; otherwise the
    /// output queue goes first, then session output, else the poll suspends.
    pub fn poll(&mut self, now: u64) -> (r: Result<PollOutput, ArrowError>)
        requires
            old(self).wf(),
        ensures
            final(self).wf(),
            spec_ack_timeout(old(self)@, now) ==> final(self)@ == old(self)@ && (r matches Err(e)
                && e.kind == ErrorKind::ConnectionError && e.msg@
                == "Arrow Service connection timeout"@),
            !spec_ack_timeout(old(self)@, now) && old(self)@.redirect is Some ==> final(self)@
                == old(self)@ && (r matches Ok(o) && o is Closed),
            !spec_ack_timeout(old(self)@, now) && old(self)@.redirect is None && old(
                self,
            )@.messages.len() > 0 ==> final(self)@ == (EngineModel {
                messages: old(self)@.messages.drop_first(),
                ..old(self)@
            }) && (r matches Ok(o) && o matches PollOutput::Message(m) && m@ == old(
                self,
            )@.messages[0]),
            !spec_ack_timeout(old(self)@, now) && old(self)@.redirect is None && old(
                self,
            )@.messages.len() == 0 && old(self)@.sessions.output.len() > 0 ==> final(self)@
                == (EngineModel {
                sessions: SessionManagerModel {
                    output: old(self)@.sessions.output.drop_first(),
                    ..old(self)@.sessions
                },
                ..old(self)@
            }) && (r matches Ok(o) && o matches PollOutput::Message(m) && m@ == old(
                self,
            )@.sessions.output[0]),
            !spec_ack_timeout(old(self)@, now) && old(self)@.redirect is None && old(
                self,
            )@.messages.len() == 0 && old(self)@.sessions.output.len() == 0 ==> final(self)@
                == old(self)@ && (r matches Ok(o) && o is Pending),
    {
        if self.ack_timeout(now) {
            return Err(ArrowError::connection_error("Arrow Service connection timeout"));
        }
        if self.is_closed() {
            return Ok(PollOutput::Closed);
        }
        match self.messages.pop_front() {
            Some(m) => {
                proof {
                    assert(final(self)@.messages =~= old(self)@.messages.drop_first());
                }
                return Ok(PollOutput::Message(m));
            },
            None => {},
        }
        match self.sessions.poll() {
            Some(m) => Ok(PollOutput::Message(m)),
            None => Ok(PollOutput::Pending),
        }
    }

    /// Record whether a network scan is in progress, for STATUS replies.
    pub fn set_scanning(&mut self, scanning: bool)
        ensures
            final(self)@ == (EngineModel { scanning, ..old(self)@ }),
    {
        self.scanning = scanning;
    }

    /// Replace the scan report handed out in SCAN_REPORT replies.
    pub fn set_scan_report(&mut self, report: Vec<u8>)
        ensures
            final(self)@ == (EngineModel { scan_report: report@, ..old(self)@ }),
    {
        self.scan_report = report;
    }

    /// Replace the encoded service table advertised in UPDATE messages.
    pub fn set_service_table(&mut self, svc_table: Vec<u8>)
        ensures
            final(self)@ == (EngineModel { svc_table: svc_table@, ..old(self)@ }),
    {
        self.svc_table = svc_table;
    }

    /// Queue a frame a local service produced for the server.
    pub fn push_session_output(&mut self, msg: ArrowMessage)
        ensures
            final(self)@ == (EngineModel {
                sessions: SessionManagerModel {
                    output: old(self)@.sessions.output.push(msg@),
                    ..old(self)@.sessions
                },
                ..old(self)@
            }),
    {
        self.sessions.push_output(msg);
    }

    /// Take the next inbound frame owed to the local services, if any.
    pub fn pop_session_delivered(&mut self) -> (r: Option<ArrowMessage>)
        ensures
            match r {
                Some(m) => old(self)@.sessions.delivered.len() > 0 && m@ == old(
                    self,
                )@.sessions.delivered[0] && final(self)@ == (EngineModel {
                    sessions: SessionManagerModel {
                        delivered: old(self)@.sessions.delivered.drop_first(),
                        ..old(self)@.sessions
                    },
                    ..old(self)@
                }),
                None => old(self)@.sessions.delivered.len() == 0 && final(self)@ == old(self)@,
            },
    {
        self.sessions.pop_delivered()
    }
}

/// Law: an unconfirmed control message is tracked exactly once. Queueing a
/// message whose id has no outstanding entry leaves exactly one entry with
/// that id in the pending-ACK FIFO; it stays until the matching ACK pops it
/// (`spec_ack_step`) or its deadline lapses and the next poll fails.
pub proof fn lemma_send_unconfirmed_tracks_once(
    pre: EngineModel,
    post: EngineModel,
    cm: ControlMessageModel,
    now: u64,
)
    requires
        crate::tracker::count_id(pre.expected_acks, cm.msg_id) == 0,
        post.expected_acks == pre.expected_acks.push(
            ExpectedAck { msg_id: cm.msg_id, deadline: (now + ACK_TIMEOUT) as u64 },
        ),
    ensures
        crate::tracker::count_id(post.expected_acks, cm.msg_id) == 1,
{
    crate::tracker::lemma_unconfirmed_tracked_once(
        pre.expected_acks,
        ExpectedAck { msg_id: cm.msg_id, deadline: (now + ACK_TIMEOUT) as u64 },
    );
}

/// Law: ACKs must arrive in the FIFO order of the outstanding ids. An ACK
/// that does not match the head of the pending-ACK FIFO is answered with
/// exactly `unexpected ACK message ID`.
pub proof fn lemma_ack_order_enforced(
    pre: EngineModel,
    cm: ControlMessageModel,
    post: EngineModel,
    r: Result<(), ArrowError>,
)
    requires
        spec_ack_step(pre, cm, post, r),
        pre.expected_acks.len() > 0,
        pre.expected_acks[0].msg_id != cm.msg_id,
    ensures
        spec_err_other(r, "unexpected ACK message ID"@),
{
}

/// Law: a REDIRECT is idempotent. Processing a REDIRECT sets the redirect
/// target; any frame handed in afterwards is silently discarded, so a second
/// REDIRECT leaves the same redirect value as the first.
pub proof fn lemma_redirect_idempotent(
    m0: EngineModel,
    m1: EngineModel,
    m2: EngineModel,
    cm: ControlMessageModel,
    am: ArrowMessageModel,
    r1: Result<(), ArrowError>,
    r2: Result<(), ArrowError>,
    target: Seq<char>,
)
    requires
        m0.state == ProtocolState::Established,
        cm.body == (ControlBodyModel::Redirect { target }),
        spec_redirect_step(m0, cm, m1, r1),
        spec_start_send_step(m1, am, m2, r2),
    ensures
        m1.redirect == Some(target),
        m2.redirect == Some(target),
        r2 is Ok,
{
}

} // verus!
