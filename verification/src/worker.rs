//! Runs of one worker's client, and the laws that hold along them.
//!
//! A worker owns one client and drives it: it opens a call with a
//! clock stamp, relays the runtime's events, and hands each finished
//! outcome to the sink.  A run is the sequence of those operations.
//! Over runs two laws are proved: the start stamps of the records one
//! worker emits never decrease (the clock is monotonic and the machine
//! stamps each attempt no earlier than the last), and when every stamp
//! a run hands the client stays within a deadline, so does the start
//! of every record it emits.

use vstd::prelude::*;
use crate::client::{begin_next, op_emit, op_enabled, op_next, Client, ClientOp, Phase, WorkEvent};

verus! {

/// Whether a whole run is enabled from `c`: each operation is enabled
/// in the state the ones before it produced.
pub open spec fn run_enabled(c: Client, ops: Seq<ClientOp>) -> bool
    decreases ops.len(),
{
    ops.len() == 0 || (op_enabled(c, ops[0]) && run_enabled(op_next(c, ops[0]), ops.drop_first()))
}

/// The start stamps of the records a run emits, in emission order.
pub open spec fn run_starts(c: Client, ops: Seq<ClientOp>) -> Seq<u64>
    decreases ops.len(),
{
    if ops.len() == 0 {
        Seq::empty()
    } else {
        let rest = run_starts(op_next(c, ops[0]), ops.drop_first());
        match op_emit(c, ops[0]) {
            Some(r) => seq![r.start] + rest,
            None => rest,
        }
    }
}

/// An enabled operation never moves the attempt stamp backwards.
pub proof fn lemma_op_start_monotone(c: Client, op: ClientOp)
    requires
        op_enabled(c, op),
    ensures
        c.start <= op_next(c, op).start,
{
}

/// Law: the records a single worker emits carry non-decreasing start
/// times, and none starts before the stamp its client already carries.
pub proof fn lemma_worker_starts_monotone(c: Client, ops: Seq<ClientOp>)
    requires
        run_enabled(c, ops),
    ensures
        forall|i: int| 0 <= i < run_starts(c, ops).len() ==> c.start <= run_starts(c, ops)[i],
        forall|i: int, j: int|
            0 <= i <= j < run_starts(c, ops).len() ==> run_starts(c, ops)[i] <= run_starts(
                c,
                ops,
            )[j],
    decreases ops.len(),
{
    if ops.len() == 0 {
    } else {
        let c1 = op_next(c, ops[0]);
        let rest = ops.drop_first();
        lemma_op_start_monotone(c, ops[0]);
        lemma_worker_starts_monotone(c1, rest);
        let s = run_starts(c, ops);
        let sr = run_starts(c1, rest);
        match op_emit(c, ops[0]) {
            Some(r) => {
                assert(s == seq![r.start] + sr);
                assert(r.start == c.start);
                assert forall|i: int| 0 <= i < s.len() implies c.start <= s[i] by {
                    if i > 0 {
                        assert(s[i] == sr[i - 1]);
                    }
                }
                assert forall|i: int, j: int| 0 <= i <= j < s.len() implies s[i] <= s[j] by {
                    if i == 0 && j > 0 {
                        assert(s[j] == sr[j - 1]);
                    } else if i > 0 {
                        assert(s[i] == sr[i - 1]);
                        assert(s[j] == sr[j - 1]);
                    }
                }
            },
            None => {
                assert(s == sr);
            },
        }
    }
}

/// An enabled operation preserves the machine's invariant.
pub proof fn lemma_op_preserves_wf(c: Client, op: ClientOp)
    requires
        c.wf(),
        op_enabled(c, op),
    ensures
        op_next(c, op).wf(),
{
}

/// Connect attempts a run answers: each `Connected` or `ConnectFailed`
/// event is the outcome of exactly one connect action.
pub open spec fn run_connects(ops: Seq<ClientOp>) -> nat
    decreases ops.len(),
{
    if ops.len() == 0 {
        0
    } else {
        (match ops[0] {
            ClientOp::Deliver { ev: WorkEvent::Connected } => 1 as nat,
            ClientOp::Deliver { ev: WorkEvent::ConnectFailed } => 1 as nat,
            _ => 0 as nat,
        }) + run_connects(ops.drop_first())
    }
}

/// How many connect attempts the rest of the current call can still
/// make: one for the attempt under way, one more while the transparent
/// retry is unspent.
pub open spec fn call_potential(c: Client) -> int {
    match c.phase {
        Phase::Idle => 0,
        Phase::Resolving => 2 - c.num_retry,
        Phase::Connecting => 2 - c.num_retry,
        Phase::Sending => 1 - c.num_retry,
    }
}

/// Within one call (no new call opens), the connect attempts that
/// remain never exceed the potential of the current state.
pub proof fn lemma_connects_bounded(c: Client, ops: Seq<ClientOp>)
    requires
        c.wf(),
        run_enabled(c, ops),
        forall|k: int| 0 <= k < ops.len() ==> !(#[trigger] ops[k] is Begin),
    ensures
        run_connects(ops) <= call_potential(c),
    decreases ops.len(),
{
    if ops.len() > 0 {
        let c1 = op_next(c, ops[0]);
        let rest = ops.drop_first();
        lemma_op_preserves_wf(c, ops[0]);
        assert forall|k: int| 0 <= k < rest.len() implies !(#[trigger] rest[k] is Begin) by {
            assert(rest[k] == ops[k + 1]);
        }
        lemma_connects_bounded(c1, rest);
    }
}

/// Law: at most two connect attempts per `work` call — the original
/// attempt and the one transparent retry.  A call that starts on a
/// cached channel connects at most once (only if its send fails).
pub proof fn lemma_call_connects_at_most_two(c: Client, now: u64, ops: Seq<ClientOp>)
    requires
        c.wf(),
        c.phase is Idle,
        c.start <= now,
        run_enabled(begin_next(c, now), ops),
        forall|k: int| 0 <= k < ops.len() ==> !(#[trigger] ops[k] is Begin),
    ensures
        run_connects(ops) <= 2,
        c.conn_ready ==> run_connects(ops) <= 1,
{
    lemma_connects_bounded(begin_next(c, now), ops);
}

/// Whether every clock stamp an operation hands the client stays at or
/// before `deadline`.
pub open spec fn op_stamps_by(op: ClientOp, deadline: u64) -> bool {
    match op {
        ClientOp::Begin { now } => now <= deadline,
        ClientOp::Deliver { ev } => match ev {
            crate::client::WorkEvent::SendFailed { now } => now <= deadline,
            _ => true,
        },
    }
}

/// Law: when a run hands the client no stamp past the deadline — the
/// worker admits no new request at or after it, and no retry is
/// re-stamped after it — every record the run emits has
/// `start <= deadline`.
pub proof fn lemma_deadline_bounds_starts(c: Client, ops: Seq<ClientOp>, deadline: u64)
    requires
        run_enabled(c, ops),
        c.start <= deadline,
        forall|k: int| 0 <= k < ops.len() ==> op_stamps_by(#[trigger] ops[k], deadline),
    ensures
        forall|i: int| 0 <= i < run_starts(c, ops).len() ==> run_starts(c, ops)[i] <= deadline,
    decreases ops.len(),
{
    if ops.len() == 0 {
    } else {
        let c1 = op_next(c, ops[0]);
        let rest = ops.drop_first();
        assert(op_stamps_by(ops[0], deadline));
        assert(c1.start <= deadline);
        assert forall|k: int| 0 <= k < rest.len() implies op_stamps_by(#[trigger] rest[k], deadline) by {
            assert(rest[k] == ops[k + 1]);
        }
        lemma_deadline_bounds_starts(c1, rest, deadline);
        let s = run_starts(c, ops);
        let sr = run_starts(c1, rest);
        match op_emit(c, ops[0]) {
            Some(r) => {
                assert(s == seq![r.start] + sr);
                assert(r.start == c.start);
                assert forall|i: int| 0 <= i < s.len() implies s[i] <= deadline by {
                    if i > 0 {
                        assert(s[i] == sr[i - 1]);
                    }
                }
            },
            None => {
                assert(s == sr);
            },
        }
    }
}

} // verus!
