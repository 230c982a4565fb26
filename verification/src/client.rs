//! The per-worker HTTP client, as a state machine.
//!
//! One `work` call of a client is a short conversation with
//! the runtime: resolve the host, connect (with TLS where the scheme
//! asks for it), send the request racing a timeout, drain the body, and
//! on a transport failure reconnect once before surfacing the error.
//! The library holds that conversation as a machine: [`Client::begin`]
//! opens a call, [`Client::step`] consumes the outcome of the last
//! action and decides the next one.  The runtime performs the actions
//! (they are I/O) and reports plain-valued events back.
//!
//! The send channel of an established connection is kept across calls
//! (keep-alive): a call that ends in success leaves `conn_ready` set
//! and the next call starts sending at once; any transport failure
//! drops the channel, and the next call walks the full resolve +
//! connect path again.

use vstd::prelude::*;
use crate::report::{RequestResult, TransportError, valid_status};
use crate::target::{Scheme, Target};
use rand::Rng;

verus! {

/// The immutable request template a dispatch is built from.  Used only
/// to produce fresh clients, one per worker; never shared mutably.
pub struct ClientBuilder {
    /// Where requests go.
    pub target: Target,
    /// HTTP method token.
    pub method: String,
    /// Header map; duplicates are preserved, order does not matter.
    pub headers: Vec<(String, String)>,
    /// Optional request body.
    pub body: Option<Vec<u8>>,
    /// Whether connections set TCP nodelay.
    pub tcp_nodelay: bool,
    /// Per-request timeout in nanoseconds, where one is configured.
    pub timeout: Option<u64>,
}

/// Where a client stands inside (or between) `work` calls.
#[derive(Clone, Copy, Debug, PartialEq, Eq, Structural)]
pub enum Phase {
    /// Between calls; a send channel may be cached.
    Idle,
    /// A DNS lookup is in flight.
    Resolving,
    /// A connect (TCP, and TLS where asked) is in flight.
    Connecting,
    /// A request send is in flight, racing the timeout.
    Sending,
}

/// A single-connection HTTP requester: the decision state of one
/// worker's client.  The runtime holds the matching I/O handles (the
/// resolver and the open connection) and keeps them exactly while
/// `resolver_cached` and `conn_ready` say so.
pub struct Client {
    /// Where requests go.
    pub target: Target,
    /// HTTP method token.
    pub method: String,
    /// Header map; duplicates preserved.
    pub headers: Vec<(String, String)>,
    /// Optional request body.
    pub body: Option<Vec<u8>>,
    /// Whether connections set TCP nodelay.
    pub tcp_nodelay: bool,
    /// Per-request timeout in nanoseconds, where one is configured.
    pub timeout: Option<u64>,
    /// A send channel from an earlier successful call is cached and
    /// believed usable.
    pub conn_ready: bool,
    /// The resolver from an earlier successful lookup is cached.
    pub resolver_cached: bool,
    /// Where the client stands.
    pub phase: Phase,
    /// Transport failures seen in the current call; at most one is
    /// retried transparently.
    pub num_retry: u8,
    /// Start stamp of the current attempt, nanoseconds.
    pub start: u64,
}

/// What the runtime reports back: the outcome of the last action.
pub enum WorkEvent {
    /// The DNS lookup finished with this many addresses (zero when the
    /// host resolved to none).
    Resolved { addr_count: usize },
    /// The DNS lookup itself failed.
    ResolveFailed,
    /// TCP connect, TLS handshake and HTTP handshake all succeeded.
    Connected,
    /// Connect, TLS handshake or HTTP handshake failed.
    ConnectFailed,
    /// The response arrived and its body was drained: status code,
    /// the stamp taken just after the body ended, and the summed
    /// chunk lengths.
    SendOk { status: u16, end: u64, len_bytes: usize },
    /// The send failed with a transport error; `now` is the stamp
    /// taken at the failure, for re-stamping a retried attempt.
    SendFailed { now: u64 },
    /// The body stream failed mid-read.
    BodyFailed,
    /// The timeout won the race against the send.
    TimedOut,
}

/// The request a worker writes to the wire: the template, cloned.  The
/// request line carries the path-and-query only; the authority lives in
/// the established connection.
pub struct RequestPlan {
    /// HTTP method token.
    pub method: String,
    /// Path-and-query component of the target URL.
    pub path: String,
    /// Header map; duplicates preserved.
    pub headers: Vec<(String, String)>,
    /// Optional request body.
    pub body: Option<Vec<u8>>,
}

/// What the client asks the runtime to do next.
pub enum WorkAction {
    /// Look the target host up in DNS; report the address count.
    Resolve,
    /// Connect to address `addr_index` of the reported set, on `port`;
    /// wrap in TLS when `tls`; set nodelay per `nodelay`.
    Connect { addr_index: usize, port: u16, tls: bool, nodelay: bool },
    /// Send this request over the open connection, racing the timeout
    /// (no timeout: the race never fires); then drain the body.
    Send { plan: RequestPlan, timeout: Option<u64> },
    /// The call is over; hand this outcome to the result sink.
    Finish { outcome: Result<RequestResult, TransportError> },
}

/// Two optional byte bodies hold the same bytes.
pub open spec fn opt_bytes_eq(a: Option<Vec<u8>>, b: Option<Vec<u8>>) -> bool {
    match (a, b) {
        (Some(x), Some(y)) => x@ == y@,
        (None, None) => true,
        _ => false,
    }
}

/// `p` is the client's template, cloned.
pub open spec fn plan_matches(p: RequestPlan, c: Client) -> bool {
    &&& p.method@ == c.method@
    &&& p.path@ == c.target.path@
    &&& p.headers@ == c.headers@
    &&& opt_bytes_eq(p.body, c.body)
}

impl Client {
    /// The machine's invariant: at most one transparent retry is ever
    /// pending, and the cached channel is only believed usable between
    /// calls (once a call is under way it has been taken).
    pub open spec fn wf(self) -> bool {
        &&& self.num_retry <= 1
        &&& !(self.phase is Idle) ==> !self.conn_ready
    }

    /// Which events the machine can consume in its current phase, and
    /// what must hold of their payloads: stamps never run backwards
    /// (the clock is monotonic) and a status code is what the wire
    /// format admits.
    pub open spec fn accepts(self, ev: WorkEvent) -> bool {
        match ev {
            WorkEvent::Resolved { addr_count } => self.phase is Resolving,
            WorkEvent::ResolveFailed => self.phase is Resolving,
            WorkEvent::Connected => self.phase is Connecting,
            WorkEvent::ConnectFailed => self.phase is Connecting,
            WorkEvent::SendOk { status, end, len_bytes } => {
                &&& self.phase is Sending
                &&& self.start <= end
                &&& valid_status(status)
            },
            WorkEvent::SendFailed { now } => self.phase is Sending && self.start <= now,
            WorkEvent::BodyFailed => self.phase is Sending,
            WorkEvent::TimedOut => self.phase is Sending,
        }
    }
}

/// The state [`Client::begin`] leaves behind: the call is stamped with
/// `now`, the retry budget is fresh, and the cached channel (if any)
/// has been taken for sending.
pub open spec fn begin_next(pre: Client, now: u64) -> Client {
    Client {
        phase: if pre.conn_ready {
            Phase::Sending
        } else {
            Phase::Resolving
        },
        conn_ready: false,
        num_retry: 0,
        start: now,
        ..pre
    }
}

/// The state [`Client::step`] leaves behind on each event.
pub open spec fn step_next(pre: Client, ev: WorkEvent) -> Client {
    match ev {
        WorkEvent::Resolved { addr_count } => {
            if addr_count == 0 {
                // The resolver was taken for the lookup and is dropped
                // on the empty-set failure path.
                Client { phase: Phase::Idle, resolver_cached: false, ..pre }
            } else {
                Client { phase: Phase::Connecting, resolver_cached: true, ..pre }
            }
        },
        WorkEvent::ResolveFailed => Client { phase: Phase::Idle, resolver_cached: false, ..pre },
        WorkEvent::Connected => Client { phase: Phase::Sending, ..pre },
        WorkEvent::ConnectFailed => Client { phase: Phase::Idle, ..pre },
        WorkEvent::SendOk { status, end, len_bytes } => Client {
            phase: Phase::Idle,
            conn_ready: true,
            ..pre
        },
        WorkEvent::SendFailed { now } => {
            if pre.num_retry >= 1 {
                Client { phase: Phase::Idle, ..pre }
            } else {
                Client {
                    phase: Phase::Resolving,
                    start: now,
                    num_retry: (pre.num_retry + 1) as u8,
                    ..pre
                }
            }
        },
        WorkEvent::BodyFailed => Client { phase: Phase::Idle, ..pre },
        WorkEvent::TimedOut => Client { phase: Phase::Idle, ..pre },
    }
}

/// The record a step emits, where it finishes the call successfully.
pub open spec fn step_emit(pre: Client, ev: WorkEvent) -> Option<RequestResult> {
    match ev {
        WorkEvent::SendOk { status, end, len_bytes } => Some(
            RequestResult { start: pre.start, end, status, len_bytes },
        ),
        _ => None,
    }
}

/// What [`Client::begin`] may answer.
pub open spec fn begin_action_ok(pre: Client, act: WorkAction) -> bool {
    if pre.conn_ready {
        act matches WorkAction::Send { plan, timeout } && plan_matches(plan, pre) && timeout
            == pre.timeout
    } else {
        act is Resolve
    }
}

/// What [`Client::step`] may answer on each event.  The connect action
/// picks some address of the reported set; which one is the random
/// choice of the address-set randomization.
pub open spec fn step_action_ok(pre: Client, ev: WorkEvent, act: WorkAction) -> bool {
    match ev {
        WorkEvent::Resolved { addr_count } => {
            if addr_count == 0 {
                act == (WorkAction::Finish { outcome: Err::<RequestResult, _>(
                    TransportError::Resolve,
                ) })
            } else {
                act matches WorkAction::Connect { addr_index, port, tls, nodelay } && {
                    &&& addr_index < addr_count
                    &&& port == pre.target.spec_port()
                    &&& tls == (pre.target.scheme is Https)
                    &&& nodelay == pre.tcp_nodelay
                }
            }
        },
        WorkEvent::ResolveFailed => act == (WorkAction::Finish { outcome: Err::<RequestResult, _>(
            TransportError::Resolve,
        ) }),
        WorkEvent::Connected => act matches WorkAction::Send { plan, timeout } && plan_matches(
            plan,
            pre,
        ) && timeout == pre.timeout,
        WorkEvent::ConnectFailed => act == (WorkAction::Finish { outcome: Err::<RequestResult, _>(
            TransportError::Connect,
        ) }),
        WorkEvent::SendOk { status, end, len_bytes } => act == (WorkAction::Finish {
            outcome: Ok::<_, TransportError>(
                RequestResult { start: pre.start, end, status, len_bytes },
            ),
        }),
        WorkEvent::SendFailed { now } => {
            if pre.num_retry >= 1 {
                act == (WorkAction::Finish { outcome: Err::<RequestResult, _>(
                    TransportError::Send,
                ) })
            } else {
                act is Resolve
            }
        },
        WorkEvent::BodyFailed => act == (WorkAction::Finish { outcome: Err::<RequestResult, _>(
            TransportError::Send,
        ) }),
        WorkEvent::TimedOut => act == (WorkAction::Finish { outcome: Err::<RequestResult, _>(
            TransportError::Timeout,
        ) }),
    }
}

/// Relies on `rand::Rng::gen_range` over `0..len` on the thread-local
/// generator: a uniformly random index below `len`.  Nothing more is
/// claimed of a random value.
#[verifier::external_body]
fn pick_index(len: usize) -> (i: usize)
    requires
        len >= 1,
    ensures
        i < len,
{
    rand::thread_rng().gen_range(0..len)
}

/// Copy a byte body.
fn copy_bytes(v: &Vec<u8>) -> (r: Vec<u8>)
    ensures
        r@ == v@,
{
    let mut r: Vec<u8> = Vec::new();
    let mut i: usize = 0;
    while i < v.len()
        invariant
            i <= v.len(),
            r@ == v@.subrange(0, i as int),
        decreases v.len() - i,
    {
        r.push(v[i]);
        i = i + 1;
        proof {
            assert(r@ =~= v@.subrange(0, i as int));
        }
    }
    proof {
        assert(r@ =~= v@);
    }
    r
}

/// Copy a header map, duplicates and all.
fn copy_headers(h: &Vec<(String, String)>) -> (r: Vec<(String, String)>)
    ensures
        r@ == h@,
{
    let mut r: Vec<(String, String)> = Vec::new();
    let mut i: usize = 0;
    while i < h.len()
        invariant
            i <= h.len(),
            r@ == h@.subrange(0, i as int),
        decreases h.len() - i,
    {
        let name = h[i].0.clone();
        let value = h[i].1.clone();
        r.push((name, value));
        i = i + 1;
        proof {
            assert(r@ =~= h@.subrange(0, i as int));
        }
    }
    proof {
        assert(r@ =~= h@);
    }
    r
}

impl ClientBuilder {
    /// A fresh client carries the template and nothing else: no cached
    /// resolver, no cached channel, a zero stamp.
    pub open spec fn fresh_from(c: Client, b: ClientBuilder) -> bool {
        &&& c.target.scheme == b.target.scheme
        &&& c.target.host@ == b.target.host@
        &&& c.target.host_is_domain == b.target.host_is_domain
        &&& c.target.port == b.target.port
        &&& c.target.path@ == b.target.path@
        &&& c.method@ == b.method@
        &&& c.headers@ == b.headers@
        &&& opt_bytes_eq(c.body, b.body)
        &&& c.tcp_nodelay == b.tcp_nodelay
        &&& c.timeout == b.timeout
        &&& !c.conn_ready
        &&& !c.resolver_cached
        &&& c.phase is Idle
        &&& c.num_retry == 0
        &&& c.start == 0
    }

    /// Build a fresh client from the template.
    pub fn build(&self) -> (c: Client)
        ensures
            Self::fresh_from(c, *self),
            c.wf(),
    {
        Client {
            target: Target {
                scheme: self.target.scheme,
                host: self.target.host.clone(),
                host_is_domain: self.target.host_is_domain,
                port: self.target.port,
                path: self.target.path.clone(),
            },
            method: self.method.clone(),
            headers: copy_headers(&self.headers),
            body: match &self.body {
                Some(b) => Some(copy_bytes(b)),
                None => None,
            },
            tcp_nodelay: self.tcp_nodelay,
            timeout: self.timeout,
            conn_ready: false,
            resolver_cached: false,
            phase: Phase::Idle,
            num_retry: 0,
            start: 0,
        }
    }
}

impl Client {
    /// Clone the template into the request the runtime will write.
    pub fn request(&self) -> (p: RequestPlan)
        ensures
            plan_matches(p, *self),
    {
        RequestPlan {
            method: self.method.clone(),
            path: self.target.path.clone(),
            headers: copy_headers(&self.headers),
            body: match &self.body {
                Some(b) => Some(copy_bytes(b)),
                None => None,
            },
        }
    }

    /// Open one `work` call, stamped `now`.  With a cached channel the
    /// request goes out at once; otherwise the full resolve + connect
    /// path is walked first.
    pub fn begin(&mut self, now: u64) -> (act: WorkAction)
        requires
            old(self).wf(),
            old(self).phase is Idle,
            old(self).start <= now,
        ensures
            final(self).wf(),
            *final(self) == begin_next(*old(self), now),
            begin_action_ok(*old(self), act),
    {
        self.start = now;
        self.num_retry = 0;
        if self.conn_ready {
            self.conn_ready = false;
            self.phase = Phase::Sending;
            let plan = self.request();
            WorkAction::Send { plan, timeout: self.timeout }
        } else {
            self.phase = Phase::Resolving;
            WorkAction::Resolve
        }
    }

    /// Consume the outcome of the last action and decide the next one.
    pub fn step(&mut self, ev: WorkEvent) -> (act: WorkAction)
        requires
            old(self).wf(),
            !(old(self).phase is Idle),
            old(self).accepts(ev),
        ensures
            final(self).wf(),
            *final(self) == step_next(*old(self), ev),
            step_action_ok(*old(self), ev, act),
    {
        match ev {
            WorkEvent::Resolved { addr_count } => {
                if addr_count == 0 {
                    self.phase = Phase::Idle;
                    self.resolver_cached = false;
                    WorkAction::Finish { outcome: Err(TransportError::Resolve) }
                } else {
                    self.phase = Phase::Connecting;
                    self.resolver_cached = true;
                    let addr_index = pick_index(addr_count);
                    WorkAction::Connect {
                        addr_index,
                        port: self.target.port_or_default(),
                        tls: self.target.uses_tls(),
                        nodelay: self.tcp_nodelay,
                    }
                }
            },
            WorkEvent::ResolveFailed => {
                self.phase = Phase::Idle;
                self.resolver_cached = false;
                WorkAction::Finish { outcome: Err(TransportError::Resolve) }
            },
            WorkEvent::Connected => {
                self.phase = Phase::Sending;
                let plan = self.request();
                WorkAction::Send { plan, timeout: self.timeout }
            },
            WorkEvent::ConnectFailed => {
                self.phase = Phase::Idle;
                WorkAction::Finish { outcome: Err(TransportError::Connect) }
            },
            WorkEvent::SendOk { status, end, len_bytes } => {
                self.phase = Phase::Idle;
                self.conn_ready = true;
                WorkAction::Finish {
                    outcome: Ok(RequestResult { start: self.start, end, status, len_bytes }),
                }
            },
            WorkEvent::SendFailed { now } => {
                if self.num_retry >= 1 {
                    self.phase = Phase::Idle;
                    WorkAction::Finish { outcome: Err(TransportError::Send) }
                } else {
                    self.phase = Phase::Resolving;
                    self.start = now;
                    self.num_retry = self.num_retry + 1;
                    WorkAction::Resolve
                }
            },
            WorkEvent::BodyFailed => {
                self.phase = Phase::Idle;
                WorkAction::Finish { outcome: Err(TransportError::Send) }
            },
            WorkEvent::TimedOut => {
                self.phase = Phase::Idle;
                WorkAction::Finish { outcome: Err(TransportError::Timeout) }
            },
        }
    }
}

/// One operation a worker performs on its client: open a call with a
/// clock stamp, or deliver the outcome of the last action.
pub enum ClientOp {
    /// Open a `work` call, stamped `now`.
    Begin { now: u64 },
    /// Deliver the outcome of the last action.
    Deliver { ev: WorkEvent },
}

/// Whether an operation is enabled: calls open only between calls,
/// with a stamp no earlier than the client's; events only in the phase
/// that awaits them.
pub open spec fn op_enabled(c: Client, op: ClientOp) -> bool {
    match op {
        ClientOp::Begin { now } => c.phase is Idle && c.start <= now,
        ClientOp::Deliver { ev } => !(c.phase is Idle) && c.accepts(ev),
    }
}

/// The state an operation leaves the client in.
pub open spec fn op_next(c: Client, op: ClientOp) -> Client {
    match op {
        ClientOp::Begin { now } => begin_next(c, now),
        ClientOp::Deliver { ev } => step_next(c, ev),
    }
}

/// The record an operation emits, where it finishes a call
/// successfully.
pub open spec fn op_emit(c: Client, op: ClientOp) -> Option<RequestResult> {
    match op {
        ClientOp::Begin { now } => None,
        ClientOp::Deliver { ev } => step_emit(c, ev),
    }
}

/// Law: a record the machine emits on success is well formed — its
/// start stamp does not exceed its end stamp (so its duration is a
/// plain difference) and its status code is one the wire format admits.
pub proof fn lemma_success_result_valid(pre: Client, ev: WorkEvent, r: RequestResult)
    requires
        pre.accepts(ev),
        step_emit(pre, ev) == Some(r),
    ensures
        r.valid(),
{
}

} // verus!
