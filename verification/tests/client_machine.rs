//! The client machine, driven through whole `work` calls.

use loadgen::client::{ClientBuilder, WorkAction, WorkEvent};
use loadgen::report::{RequestResult, TransportError};
use loadgen::target::{Scheme, Target};

fn builder(scheme: Scheme, port: Option<u16>, timeout: Option<u64>) -> ClientBuilder {
    ClientBuilder {
        target: Target {
            scheme,
            host: "127.0.0.1".to_string(),
            host_is_domain: false,
            port,
            path: "/ping".to_string(),
        },
        method: "GET".to_string(),
        headers: vec![("accept".to_string(), "text/plain".to_string())],
        body: None,
        tcp_nodelay: false,
        timeout,
    }
}

#[test]
fn successful_request_and_keep_alive_reuse() {
    let b = builder(Scheme::Http, Some(3000), None);
    let mut c = b.build();
    let a = c.begin(100);
    assert!(matches!(a, WorkAction::Resolve));
    let a = c.step(WorkEvent::Resolved { addr_count: 1 });
    match a {
        WorkAction::Connect { addr_index, port, tls, nodelay } => {
            assert_eq!(addr_index, 0);
            assert_eq!(port, 3000);
            assert!(!tls);
            assert!(!nodelay);
        }
        _ => panic!("expected a connect action"),
    }
    let a = c.step(WorkEvent::Connected);
    match a {
        WorkAction::Send { plan, timeout } => {
            assert_eq!(plan.method, "GET");
            assert_eq!(plan.path, "/ping");
            assert_eq!(plan.headers, vec![("accept".to_string(), "text/plain".to_string())]);
            assert!(plan.body.is_none());
            assert!(timeout.is_none());
        }
        _ => panic!("expected a send action"),
    }
    let a = c.step(WorkEvent::SendOk { status: 200, end: 250, len_bytes: 4 });
    match a {
        WorkAction::Finish { outcome } => {
            let r = outcome.unwrap();
            assert_eq!(r, RequestResult { start: 100, end: 250, status: 200, len_bytes: 4 });
            assert_eq!(r.duration(), 150);
        }
        _ => panic!("expected the call to finish"),
    }
    // Keep-alive: the next call reuses the channel and sends at once.
    let a = c.begin(300);
    assert!(matches!(a, WorkAction::Send { .. }));
}

#[test]
fn https_connect_uses_tls_and_default_port() {
    let b = builder(Scheme::Https, None, None);
    let mut c = b.build();
    let a = c.begin(0);
    assert!(matches!(a, WorkAction::Resolve));
    let a = c.step(WorkEvent::Resolved { addr_count: 1 });
    match a {
        WorkAction::Connect { addr_index, port, tls, nodelay } => {
            assert_eq!(addr_index, 0);
            assert_eq!(port, 443);
            assert!(tls);
            assert!(!nodelay);
        }
        _ => panic!("expected a connect action"),
    }
}

#[test]
fn address_pick_stays_inside_the_reported_set() {
    let b = builder(Scheme::Http, Some(80), None);
    let mut c = b.build();
    c.begin(0);
    let a = c.step(WorkEvent::Resolved { addr_count: 5 });
    match a {
        WorkAction::Connect { addr_index, .. } => assert!(addr_index < 5),
        _ => panic!("expected a connect action"),
    }
}

#[test]
fn empty_address_set_is_a_resolve_error() {
    let b = builder(Scheme::Http, Some(80), None);
    let mut c = b.build();
    c.begin(0);
    let a = c.step(WorkEvent::Resolved { addr_count: 0 });
    match a {
        WorkAction::Finish { outcome } => {
            assert_eq!(outcome.unwrap_err(), TransportError::Resolve)
        }
        _ => panic!("expected the call to finish"),
    }
}

#[test]
fn lookup_failure_is_a_resolve_error() {
    let b = builder(Scheme::Http, Some(80), None);
    let mut c = b.build();
    c.begin(0);
    let a = c.step(WorkEvent::ResolveFailed);
    match a {
        WorkAction::Finish { outcome } => {
            assert_eq!(outcome.unwrap_err(), TransportError::Resolve)
        }
        _ => panic!("expected the call to finish"),
    }
}

#[test]
fn connect_failure_surfaces_without_retry() {
    let b = builder(Scheme::Http, Some(80), None);
    let mut c = b.build();
    c.begin(0);
    c.step(WorkEvent::Resolved { addr_count: 1 });
    let a = c.step(WorkEvent::ConnectFailed);
    match a {
        WorkAction::Finish { outcome } => {
            assert_eq!(outcome.unwrap_err(), TransportError::Connect)
        }
        _ => panic!("expected the call to finish"),
    }
}

#[test]
fn body_failure_is_a_send_error() {
    let b = builder(Scheme::Http, Some(80), None);
    let mut c = b.build();
    c.begin(0);
    c.step(WorkEvent::Resolved { addr_count: 1 });
    c.step(WorkEvent::Connected);
    let a = c.step(WorkEvent::BodyFailed);
    match a {
        WorkAction::Finish { outcome } => {
            assert_eq!(outcome.unwrap_err(), TransportError::Send)
        }
        _ => panic!("expected the call to finish"),
    }
}

#[test]
fn first_send_failure_retries_once_then_succeeds() {
    // The server closes the first connection it accepts, then serves:
    // one sink entry with status 200, two connects on the wire.
    let b = builder(Scheme::Http, Some(80), None);
    let mut c = b.build();
    let mut connects = 0;
    c.begin(10);
    c.step(WorkEvent::Resolved { addr_count: 1 });
    connects += 1;
    c.step(WorkEvent::Connected);
    let a = c.step(WorkEvent::SendFailed { now: 20 });
    assert!(matches!(a, WorkAction::Resolve));
    c.step(WorkEvent::Resolved { addr_count: 1 });
    connects += 1;
    c.step(WorkEvent::Connected);
    let a = c.step(WorkEvent::SendOk { status: 200, end: 30, len_bytes: 0 });
    match a {
        WorkAction::Finish { outcome } => {
            let r = outcome.unwrap();
            // The retried attempt was re-stamped at its failure time.
            assert_eq!(r, RequestResult { start: 20, end: 30, status: 200, len_bytes: 0 });
        }
        _ => panic!("expected the call to finish"),
    }
    assert_eq!(connects, 2);
}

#[test]
fn second_send_failure_exhausts_the_retry_budget() {
    // The server closes every connection: the single token yields one
    // sink entry carrying a send error.
    let b = builder(Scheme::Http, Some(80), None);
    let mut c = b.build();
    c.begin(0);
    c.step(WorkEvent::Resolved { addr_count: 1 });
    c.step(WorkEvent::Connected);
    let a = c.step(WorkEvent::SendFailed { now: 5 });
    assert!(matches!(a, WorkAction::Resolve));
    c.step(WorkEvent::Resolved { addr_count: 1 });
    c.step(WorkEvent::Connected);
    let a = c.step(WorkEvent::SendFailed { now: 9 });
    match a {
        WorkAction::Finish { outcome } => {
            assert_eq!(outcome.unwrap_err(), TransportError::Send)
        }
        _ => panic!("expected the call to finish"),
    }
}

#[test]
fn timeout_surfaces_and_drops_the_channel() {
    let timeout = Some(200_000_000u64);
    let b = builder(Scheme::Http, Some(80), timeout);
    let mut c = b.build();
    c.begin(0);
    c.step(WorkEvent::Resolved { addr_count: 1 });
    let a = c.step(WorkEvent::Connected);
    match a {
        WorkAction::Send { timeout: t, .. } => assert_eq!(t, timeout),
        _ => panic!("expected a send action"),
    }
    let a = c.step(WorkEvent::TimedOut);
    match a {
        WorkAction::Finish { outcome } => {
            assert_eq!(outcome.unwrap_err(), TransportError::Timeout)
        }
        _ => panic!("expected the call to finish"),
    }
    // The channel was discarded: the next call resolves afresh.
    let a = c.begin(500_000_000);
    assert!(matches!(a, WorkAction::Resolve));
}

#[test]
fn request_template_survives_the_build() {
    let body = vec![1u8, 2, 3];
    let b = ClientBuilder {
        target: Target {
            scheme: Scheme::Http,
            host: "example.test".to_string(),
            host_is_domain: true,
            port: None,
            path: "/submit?x=1".to_string(),
        },
        method: "POST".to_string(),
        headers: vec![
            ("x-k".to_string(), "a".to_string()),
            ("x-k".to_string(), "b".to_string()),
        ],
        body: Some(body.clone()),
        tcp_nodelay: true,
        timeout: None,
    };
    let c = b.build();
    let p = c.request();
    assert_eq!(p.method, "POST");
    assert_eq!(p.path, "/submit?x=1");
    // Duplicate headers are preserved.
    assert_eq!(
        p.headers,
        vec![("x-k".to_string(), "a".to_string()), ("x-k".to_string(), "b".to_string())]
    );
    assert_eq!(p.body, Some(body));
}

#[test]
fn request_admitted_before_deadline_completes_past_it() {
    // A request started just before the deadline is completed, not
    // cancelled: its end may pass the deadline, its start cannot.
    let deadline = 1_000u64;
    assert!(loadgen::dispatch::worker_should_start(999, deadline));
    let b = builder(Scheme::Http, Some(80), None);
    let mut c = b.build();
    c.begin(999);
    c.step(WorkEvent::Resolved { addr_count: 1 });
    c.step(WorkEvent::Connected);
    let a = c.step(WorkEvent::SendOk { status: 200, end: 1_500, len_bytes: 0 });
    match a {
        WorkAction::Finish { outcome } => {
            let r = outcome.unwrap();
            assert!(r.start <= deadline);
            assert!(r.end > deadline);
        }
        _ => panic!("expected the call to finish"),
    }
}

#[test]
fn per_worker_start_stamps_never_decrease() {
    // Two calls of one worker's client: emitted start stamps ordered.
    let b = builder(Scheme::Http, Some(80), None);
    let mut c = b.build();
    let mut starts = Vec::new();
    c.begin(100);
    c.step(WorkEvent::Resolved { addr_count: 1 });
    c.step(WorkEvent::Connected);
    if let WorkAction::Finish { outcome } =
        c.step(WorkEvent::SendOk { status: 200, end: 150, len_bytes: 0 })
    {
        starts.push(outcome.unwrap().start);
    }
    c.begin(160);
    if let WorkAction::Finish { outcome } =
        c.step(WorkEvent::SendOk { status: 204, end: 170, len_bytes: 0 })
    {
        starts.push(outcome.unwrap().start);
    }
    assert_eq!(starts, vec![100, 160]);
    assert!(starts[0] <= starts[1]);
}
