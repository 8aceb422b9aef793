//! FIFO tracker of outstanding unconfirmed control messages.
//!
//! Every unconfirmed request records an expected ACK with a deadline. ACKs
//! must arrive in the FIFO order of the outstanding message ids, so only the
//! head needs to be inspected, both for matching and for timeout.

use vstd::prelude::*;

use std::collections::VecDeque;

verus! {

/// Seconds an unconfirmed control message may stay unacknowledged.
pub const ACK_TIMEOUT: u64 = 20;

/// An expected ACK: the outstanding message id and its deadline.
#[derive(Copy, Clone, Eq, PartialEq, Structural, Debug)]
pub struct ExpectedAck {
    pub msg_id: u16,
    /// Monotonic timestamp (seconds) at which the wait times out.
    pub deadline: u64,
}

impl ExpectedAck {
    /// Record an expectation starting at time `now`.
    pub fn new(msg_id: u16, now: u64) -> (r: ExpectedAck)
        requires
            now + ACK_TIMEOUT <= u64::MAX,
        ensures
            r.msg_id == msg_id,
            r.deadline == now + ACK_TIMEOUT,
    {
        ExpectedAck { msg_id, deadline: now + ACK_TIMEOUT }
    }

    /// Whether it is too late for this ACK.
    pub fn timeout(&self, now: u64) -> (r: bool)
        ensures
            r == (self.deadline <= now),
    {
        self.deadline <= now
    }
}

/// How many entries of a tracker sequence carry a given message id.
pub open spec fn count_id(s: Seq<ExpectedAck>, id: u16) -> nat
    decreases s.len(),
{
    if s.len() == 0 {
        0
    } else {
        (if s[0].msg_id == id {
            1nat
        } else {
            0nat
        }) + count_id(s.drop_first(), id)
    }
}

/// Appending an entry raises the count of its id by one and leaves every
/// other id's count unchanged.
pub proof fn lemma_count_id_push(s: Seq<ExpectedAck>, e: ExpectedAck, id: u16)
    ensures
        count_id(s.push(e), id) == count_id(s, id) + (if e.msg_id == id {
            1int
        } else {
            0int
        }),
    decreases s.len(),
{
    if s.len() == 0 {
        assert(s.push(e).drop_first() =~= s);
    } else {
        assert(s.push(e).drop_first() =~= s.drop_first().push(e));
        lemma_count_id_push(s.drop_first(), e, id);
    }
}

/// Law: an unconfirmed control message is tracked exactly once. Recording an
/// expected ACK for an id with no outstanding entry leaves exactly one entry
/// with that id in the tracker.
pub proof fn lemma_unconfirmed_tracked_once(s: Seq<ExpectedAck>, e: ExpectedAck)
    requires
        count_id(s, e.msg_id) == 0,
    ensures
        count_id(s.push(e), e.msg_id) == 1,
{
    lemma_count_id_push(s, e, e.msg_id);
}

/// Law: the matching ACK clears the entry. Popping the head removes the one
/// entry carrying its id, so the id is no longer tracked.
pub proof fn lemma_matching_ack_clears(s: Seq<ExpectedAck>)
    requires
        s.len() > 0,
        count_id(s, s[0].msg_id) == 1,
    ensures
        count_id(s.drop_first(), s[0].msg_id) == 0,
{
}

/// FIFO of expected ACKs, ordered by enqueue time.
pub struct PendingAckTracker {
    queue: VecDeque<ExpectedAck>,
}

impl View for PendingAckTracker {
    type V = Seq<ExpectedAck>;

    closed spec fn view(&self) -> Seq<ExpectedAck> {
        self.queue@
    }
}

impl PendingAckTracker {
    /// An empty tracker.
    pub fn new() -> (r: PendingAckTracker)
        ensures
            r@ == Seq::<ExpectedAck>::empty(),
    {
        PendingAckTracker { queue: VecDeque::new() }
    }

    /// The number of outstanding expectations.
    pub fn len(&self) -> (r: usize)
        ensures
            r == self@.len(),
    {
        self.queue.len()
    }

    /// Whether no ACK is outstanding.
    pub fn is_empty(&self) -> (r: bool)
        ensures
            r == (self@.len() == 0),
    {
        self.queue.len() == 0
    }

    /// Record an expected ACK for `msg_id`, starting its deadline at `now`.
    pub fn push(&mut self, msg_id: u16, now: u64)
        requires
            now + ACK_TIMEOUT <= u64::MAX,
        ensures
            final(self)@ == old(self)@.push(
                ExpectedAck { msg_id, deadline: (now + ACK_TIMEOUT) as u64 },
            ),
    {
        let e = ExpectedAck::new(msg_id, now);
        self.queue.push_back(e);
    }

    /// The head of the FIFO: the earliest outstanding expectation.
    pub fn front(&self) -> (r: Option<ExpectedAck>)
        ensures
            match r {
                Some(e) => self@.len() > 0 && e == self@[0],
                None => self@.len() == 0,
            },
    {
        if self.queue.len() == 0 {
            None
        } else {
            Some(self.queue[0])
        }
    }

    /// Pop the head of the FIFO, if any.
    pub fn pop_front(&mut self) -> (r: Option<ExpectedAck>)
        ensures
            match r {
                Some(e) => old(self)@.len() > 0 && e == old(self)@[0] && final(self)@ == old(self)@.drop_first(),
                None => old(self)@.len() == 0 && final(self)@ == old(self)@,
            },
    {
        let r = self.queue.pop_front();
        proof {
            if old(self)@.len() > 0 {
                assert(final(self)@ =~= old(self)@.drop_first());
            }
        }
        r
    }

    /// Pop the head if it carries the given id; report whether it did.
    pub fn pop_front_if_match(&mut self, msg_id: u16) -> (r: bool)
        ensures
            r == (old(self)@.len() > 0 && old(self)@[0].msg_id == msg_id),
            r ==> final(self)@ == old(self)@.drop_first(),
            !r ==> final(self)@ == old(self)@,
    {
        let matched = if self.queue.len() == 0 {
            false
        } else {
            self.queue[0].msg_id == msg_id
        };
        if matched {
            self.queue.pop_front();
            proof {
                assert(final(self)@ =~= old(self)@.drop_first());
            }
        }
        matched
    }

    /// Whether the head's deadline has lapsed. An empty tracker never times
    /// out.
    pub fn head_expired(&self, now: u64) -> (r: bool)
        ensures
            r == (self@.len() > 0 && self@[0].deadline <= now),
    {
        if self.queue.len() == 0 {
            false
        } else {
            self.queue[0].timeout(now)
        }
    }
}

} // verus!
