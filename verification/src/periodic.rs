//! Periodicity of the engine's timer-driven maintenance.
//!
//! The reactor fires [`crate::engine::ArrowClientContext::time_event`] once
//! per second. [`spec_engine_after_ticks`] is that run of ticks on the model:
//! the engine at monotonic second `t0 + k` after ticks at `t0 + 1`, ...,
//! `t0 + k` in the Established state. [`lemma_periodicity`] is the law that a
//! connection held this way for `k` seconds queues exactly `k / 60` PINGs
//! (each with its expected ACK) and runs exactly `k / 5` update checks.

use vstd::prelude::*;

use vstd::arithmetic::div_mod::{
    lemma_fundamental_div_mod, lemma_fundamental_div_mod_converse, lemma_mod_bound,
};

use crate::engine::{spec_time_event, EngineModel, ProtocolState, PING_PERIOD, UPDATE_CHECK_PERIOD};
use crate::tracker::ACK_TIMEOUT;

verus! {

/// The engine model after per-second ticks at `t0 + 1`, ..., `t0 + k`, each
/// applying the periodic tasks of [`spec_time_event`].
pub open spec fn spec_engine_after_ticks(m: EngineModel, t0: u64, k: nat) -> EngineModel
    decreases k,
{
    if k == 0 {
        m
    } else {
        spec_time_event(spec_engine_after_ticks(m, t0, (k - 1) as nat), (t0 + k) as u64)
    }
}

/// How a period boundary relates `k / p` to `(k - 1) / p`: the step crosses a
/// boundary exactly when `p` divides `k`, and that is exactly when a task
/// last fired at `p * ((k - 1) / p)` is due again at `k`.
proof fn lemma_div_step(k: int, p: int)
    requires
        p > 0,
        k >= 1,
    ensures
        k % p == 0 ==> k / p == (k - 1) / p + 1 && p * ((k - 1) / p) + p <= k,
        k % p != 0 ==> k / p == (k - 1) / p && p * ((k - 1) / p) + p > k,
{
    lemma_fundamental_div_mod(k, p);
    lemma_mod_bound(k, p);
    let q = k / p;
    let r = k % p;
    if r == 0 {
        assert(p * q == k);
        assert(q >= 1) by (nonlinear_arith)
            requires
                p > 0,
                k >= 1,
                p * q == k,
        ;
        assert((q - 1) * p == q * p - p) by (nonlinear_arith);
        assert(p * q == q * p) by (nonlinear_arith);
        lemma_fundamental_div_mod_converse(k - 1, p, q - 1, p - 1);
        assert(p * ((k - 1) / p) == p * (q - 1));
        assert(p * (q - 1) == p * q - p) by (nonlinear_arith);
    } else {
        assert(p * q == q * p) by (nonlinear_arith);
        lemma_fundamental_div_mod_converse(k - 1, p, q, r - 1);
    }
}

/// Law: periodicity. A connection held in the Established state for `k`
/// seconds, ticked once per second from a start where both periodic tasks
/// are fresh, queues exactly `k / 60` PINGs, records exactly one expected ACK
/// for each of them, and runs exactly `k / 5` update checks (each queueing
/// one UPDATE, the table being conservatively treated as always dirty).
pub proof fn lemma_periodicity(m: EngineModel, t0: u64, k: nat)
    requires
        m.state == ProtocolState::Established,
        m.last_ping == t0,
        m.last_update_chck == t0,
        t0 + k + ACK_TIMEOUT <= u64::MAX,
    ensures
        ({
            let f = spec_engine_after_ticks(m, t0, k);
            &&& f.state == m.state
            &&& f.last_ping == t0 + PING_PERIOD * ((k as int) / (PING_PERIOD as int))
            &&& f.last_update_chck == t0 + UPDATE_CHECK_PERIOD * ((k as int) / (
            UPDATE_CHECK_PERIOD as int))
            &&& f.messages.len() == m.messages.len() + (k as int) / (PING_PERIOD as int) + (
            k as int) / (UPDATE_CHECK_PERIOD as int)
            &&& f.expected_acks.len() == m.expected_acks.len() + (k as int) / (PING_PERIOD as int)
        }),
    decreases k,
{
    let p = PING_PERIOD as int;
    let u = UPDATE_CHECK_PERIOD as int;
    if k == 0 {
        assert(0int / p == 0) by {
            lemma_fundamental_div_mod_converse(0, p, 0, 0);
        }
        assert(0int / u == 0) by {
            lemma_fundamental_div_mod_converse(0, u, 0, 0);
        }
    } else {
        lemma_periodicity(m, t0, (k - 1) as nat);
        let prev = spec_engine_after_ticks(m, t0, (k - 1) as nat);
        let now = (t0 + k) as u64;
        lemma_div_step(k as int, p);
        lemma_div_step(k as int, u);
        assert(spec_engine_after_ticks(m, t0, k) == spec_time_event(prev, now));
    }
}

} // verus!
