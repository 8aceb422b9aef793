//! Multiplexer of service sessions over the Arrow connection.
//!
//! A session is an upstream-originated subflow identified by a nonzero
//! service id. The manager owns the table of active sessions, the FIFO of
//! inbound frames accepted for delivery to the local services, and the FIFO
//! of outbound frames the local services have produced for the server. The
//! local transports themselves are the caller's concern: the caller drains
//! `pop_delivered` toward the services and feeds their replies back through
//! `push_output`.

use vstd::prelude::*;

use std::collections::VecDeque;

use crate::msg::{msgs_view, ArrowMessage, ArrowMessageModel};

verus! {

/// One active session: an upstream-originated subflow.
#[derive(Copy, Clone, Eq, PartialEq, Structural, Debug)]
pub struct Session {
    /// The nonzero service id the session is keyed by.
    pub session_id: u32,
}

/// The mathematical value of a [`SessionManager`].
pub struct SessionManagerModel {
    /// Active sessions in order of creation.
    pub active: Seq<Session>,
    /// Inbound frames accepted for delivery to local services, in arrival
    /// order.
    pub delivered: Seq<ArrowMessageModel>,
    /// Outbound frames produced by local services, in production order.
    pub output: Seq<ArrowMessageModel>,
}

/// Whether a session with the given id is in the table.
pub open spec fn spec_has_session(s: Seq<Session>, id: u32) -> bool {
    exists|i: int| 0 <= i < s.len() && s[i].session_id == id
}

/// Well-formedness of the session table: ids are unique.
pub open spec fn spec_sessions_unique(s: Seq<Session>) -> bool {
    forall|i: int, j: int|
        0 <= i < j < s.len() ==> s[i].session_id != s[j].session_id
}

/// Multiplexer of per-session subflows, keyed by session id.
pub struct SessionManager {
    active: Vec<Session>,
    delivered: VecDeque<ArrowMessage>,
    output: VecDeque<ArrowMessage>,
}

impl View for SessionManager {
    type V = SessionManagerModel;

    closed spec fn view(&self) -> SessionManagerModel {
        SessionManagerModel {
            active: self.active@,
            delivered: msgs_view(self.delivered@),
            output: msgs_view(self.output@),
        }
    }
}

impl SessionManager {
    /// Well-formedness: session ids are unique.
    pub open spec fn wf(&self) -> bool {
        spec_sessions_unique(self@.active)
    }

    /// An empty manager.
    pub fn new() -> (r: SessionManager)
        ensures
            r@.active == Seq::<Session>::empty(),
            r@.delivered == Seq::<ArrowMessageModel>::empty(),
            r@.output == Seq::<ArrowMessageModel>::empty(),
            r.wf(),
    {
        let r = SessionManager {
            active: Vec::new(),
            delivered: VecDeque::new(),
            output: VecDeque::new(),
        };
        assert(msgs_view(Seq::<ArrowMessage>::empty()) =~= Seq::<ArrowMessageModel>::empty());
        r
    }

    /// The number of active sessions.
    pub fn len(&self) -> (r: usize)
        ensures
            r == self@.active.len(),
    {
        self.active.len()
    }

    /// Whether a session with the given id is active.
    pub fn has_session(&self, session_id: u32) -> (r: bool)
        ensures
            r == spec_has_session(self@.active, session_id),
    {
        let mut i: usize = 0;
        while i < self.active.len()
            invariant
                i <= self@.active.len(),
                forall|j: int| 0 <= j < i ==> self@.active[j].session_id != session_id,
            decreases self@.active.len() - i,
        {
            if self.active[i].session_id == session_id {
                return true;
            }
            i = i + 1;
        }
        false
    }

    /// Route an inbound frame to its session, creating the session on first
    /// sight, and queue the frame for delivery to the local service.
    pub fn send(&mut self, msg: ArrowMessage)
        requires
            old(self).wf(),
            msg@.service != 0,
        ensures
            final(self).wf(),
            final(self)@.delivered == old(self)@.delivered.push(msg@),
            final(self)@.output == old(self)@.output,
            spec_has_session(old(self)@.active, msg@.service as u32) ==> final(self)@.active == old(self)@.active,
            !spec_has_session(old(self)@.active, msg@.service as u32) ==> final(self)@.active
                == old(self)@.active.push(Session { session_id: msg@.service as u32 }),
    {
        let id: u32 = msg.service as u32;
        if !self.has_session(id) {
            self.active.push(Session { session_id: id });
        }
        self.delivered.push_back(msg);
        proof {
            assert(final(self)@.delivered =~= old(self)@.delivered.push(msg@));
        }
    }

    /// Close a session on HUP: drop it from the table. The error code names
    /// the reason the server gave; it does not change the table.
    pub fn close(&mut self, session_id: u32, error_code: u32)
        requires
            old(self).wf(),
        ensures
            final(self).wf(),
            final(self)@.delivered == old(self)@.delivered,
            final(self)@.output == old(self)@.output,
            !spec_has_session(old(self)@.active, session_id) ==> final(self)@.active == old(self)@.active,
            spec_has_session(old(self)@.active, session_id) ==> exists|k: int|
                0 <= k < old(self)@.active.len() && old(self)@.active[k].session_id == session_id
                    && final(self)@.active == old(self)@.active.remove(k),
            !spec_has_session(final(self)@.active, session_id),
    {
        let _ = error_code;
        let mut i: usize = 0;
        while i < self.active.len()
            invariant
                i <= self@.active.len(),
                self@ == old(self)@,
                spec_sessions_unique(self@.active),
                forall|j: int| 0 <= j < i ==> self@.active[j].session_id != session_id,
            decreases self@.active.len() - i,
        {
            if self.active[i].session_id == session_id {
                self.active.remove(i);
                proof {
                    let after = final(self)@.active;
                    let before = old(self)@.active;
                    assert(after =~= before.remove(i as int));
                    assert forall|m: int| 0 <= m < after.len() implies after[m].session_id
                        != session_id by {
                        if m >= i {
                            assert(after[m] == before[m + 1]);
                        }
                    }
                }
                return;
            }
            i = i + 1;
        }
    }

    /// The next outbound frame produced by a local service, if any.
    pub fn poll(&mut self) -> (r: Option<ArrowMessage>)
        ensures
            final(self)@.active == old(self)@.active,
            final(self)@.delivered == old(self)@.delivered,
            match r {
                Some(m) => old(self)@.output.len() > 0 && m@ == old(self)@.output[0] && final(self)@.output == old(self)@.output.drop_first(),
                None => old(self)@.output.len() == 0 && final(self)@.output == old(self)@.output,
            },
    {
        let r = self.output.pop_front();
        proof {
            if old(self)@.output.len() > 0 {
                assert(final(self)@.output =~= old(self)@.output.drop_first());
            }
        }
        r
    }

    /// Queue a frame a local service produced for the server.
    pub fn push_output(&mut self, msg: ArrowMessage)
        ensures
            final(self)@.active == old(self)@.active,
            final(self)@.delivered == old(self)@.delivered,
            final(self)@.output == old(self)@.output.push(msg@),
    {
        self.output.push_back(msg);
        proof {
            assert(final(self)@.output =~= old(self)@.output.push(msg@));
        }
    }

    /// Take the next inbound frame owed to the local services, if any.
    pub fn pop_delivered(&mut self) -> (r: Option<ArrowMessage>)
        ensures
            final(self)@.active == old(self)@.active,
            final(self)@.output == old(self)@.output,
            match r {
                Some(m) => old(self)@.delivered.len() > 0 && m@ == old(self)@.delivered[0] && final(self)@.delivered == old(self)@.delivered.drop_first(),
                None => old(self)@.delivered.len() == 0 && final(self)@.delivered == old(self)@.delivered,
            },
    {
        let r = self.delivered.pop_front();
        proof {
            if old(self)@.delivered.len() > 0 {
                assert(final(self)@.delivered =~= old(self)@.delivered.drop_first());
            }
        }
        r
    }
}

} // verus!
