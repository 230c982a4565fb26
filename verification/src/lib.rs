//! Core of an HTTP load generator: the work-dispatch engine.
//!
//! The verified library holds the decision logic of the engine: the
//! per-worker client state machine (connect, send, keep-alive reuse,
//! bounded retry, timeout), the pacing schedule that emits work tokens
//! at a target rate, and the dispatcher bookkeeping that guarantees one
//! result per work token.  Times are monotonic instants measured in
//! nanoseconds from an arbitrary epoch.  The surrounding runtime (DNS,
//! TCP, TLS, HTTP and the task executor) performs each action the
//! library asks for and hands the outcome back as a plain event.

pub mod report;
pub mod target;
pub mod client;
pub mod pacer;
pub mod dispatch;
pub mod worker;
