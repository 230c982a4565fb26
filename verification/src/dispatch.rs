//! The dispatcher: one result per work token.
//!
//! A fixed-count dispatch produces exactly `n_tasks` tokens; a worker
//! that pulls a token performs one request and pushes exactly one
//! outcome (success or error) into the result sink.  This module holds
//! that bookkeeping as a counter machine, with the law that closes the
//! accounting: when the token queue is exhausted and no request is in
//! flight any more, the sink has received exactly `n_tasks` entries.
//! It also holds the check a deadline-bounded worker makes between
//! requests.

use vstd::prelude::*;

verus! {

/// The accounting of one dispatch: every token is pending in the
/// queue, held by a worker with a request in flight, or already paid
/// into the sink.
pub struct DispatchState {
    /// Tokens still in the work queue.
    pub pending: usize,
    /// Tokens pulled by workers whose requests have not finished.
    pub in_flight: usize,
    /// Outcomes delivered to the result sink.
    pub delivered: usize,
}

impl DispatchState {
    /// Conservation: the three pools always partition the `n` tokens
    /// the dispatch was started with.
    pub open spec fn wf(self, n: int) -> bool {
        self.pending + self.in_flight + self.delivered == n
    }

    /// Open a fixed-count dispatch: all `n_tasks` tokens are produced
    /// up front, before any worker starts.
    pub fn init(n_tasks: usize) -> (s: DispatchState)
        ensures
            s.wf(n_tasks as int),
            s == (DispatchState { pending: n_tasks, in_flight: 0, delivered: 0 }),
    {
        DispatchState { pending: n_tasks, in_flight: 0, delivered: 0 }
    }

    /// A worker tries to pull a token.  With the queue empty it gets
    /// none and the state stands; that is the worker's exit signal.
    pub fn take_token(&mut self) -> (got: bool)
        requires
            old(self).in_flight < usize::MAX,
        ensures
            got == (old(self).pending > 0),
            old(self).pending > 0 ==> *final(self) == (DispatchState {
                pending: (old(self).pending - 1) as usize,
                in_flight: (old(self).in_flight + 1) as usize,
                delivered: old(self).delivered,
            }),
            old(self).pending == 0 ==> *final(self) == *old(self),
            forall|n: int| old(self).wf(n) ==> final(self).wf(n),
    {
        if self.pending > 0 {
            self.pending = self.pending - 1;
            self.in_flight = self.in_flight + 1;
            true
        } else {
            false
        }
    }

    /// A pulled token's request finished, with a success or an error,
    /// and its outcome went into the sink: the token is paid.
    pub fn deliver(&mut self)
        requires
            old(self).in_flight > 0,
            old(self).delivered < usize::MAX,
        ensures
            *final(self) == (DispatchState {
                pending: old(self).pending,
                in_flight: (old(self).in_flight - 1) as usize,
                delivered: (old(self).delivered + 1) as usize,
            }),
            forall|n: int| old(self).wf(n) ==> final(self).wf(n),
    {
        self.in_flight = self.in_flight - 1;
        self.delivered = self.delivered + 1;
    }

    /// The dispatch is over: the queue is empty and every worker has
    /// drained and returned.
    pub open spec fn complete(self) -> bool {
        self.pending == 0 && self.in_flight == 0
    }
}

/// Law: a fixed-count dispatch of `n` tokens delivers exactly `n`
/// outcomes to the sink.  Conservation is kept by every pull and every
/// delivery, so a completed dispatch has paid every token into the
/// sink: no result is ever dropped, none is invented.
pub proof fn lemma_fixed_count_delivers_all(s: DispatchState, n: int)
    requires
        s.wf(n),
        s.complete(),
    ensures
        s.delivered == n,
{
}

/// Whether a deadline-bounded worker may start another request: only
/// strictly before the deadline.  A request already under way when the
/// deadline passes is completed, not cancelled, so the dispatch ends
/// within one request duration of the deadline.
pub fn worker_should_start(now: u64, deadline: u64) -> (b: bool)
    ensures
        b == (now < deadline),
{
    now < deadline
}

} // verus!
