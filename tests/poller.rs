use alloy_icp::poller::{IcpPollerBuilder, ParamsOnce, PollPhase, PollerError, TickOutcome};
use std::cell::Cell;
use std::time::Duration;

fn poller() -> IcpPollerBuilder<u32> {
    IcpPollerBuilder::new(None, "eth_blockNumber".to_string(), 5)
}

#[test]
fn defaults() {
    let p = poller();
    assert_eq!(p.poll_interval(), Duration::from_secs(7));
    assert_eq!(p.limit(), usize::MAX);
    assert_eq!(p.method(), "eth_blockNumber");
    let p: IcpPollerBuilder<u32> =
        IcpPollerBuilder::new(Some(Duration::from_millis(250)), "m".to_string(), 1);
    assert_eq!(p.poll_interval(), Duration::from_millis(250));
}

#[test]
fn builder_setters() {
    let mut p = poller().with_limit(Some(3)).with_poll_interval(Duration::from_secs(2));
    assert_eq!(p.limit(), 3);
    assert_eq!(p.poll_interval(), Duration::from_secs(2));
    p.set_limit(None);
    assert_eq!(p.limit(), usize::MAX);
    p.set_poll_interval(Duration::from_secs(1));
    assert_eq!(p.poll_interval(), Duration::from_secs(1));
}

#[test]
fn params_serialized_once() {
    let calls = Cell::new(0u32);
    let mut p = poller();
    for _ in 0..5 {
        let text = p
            .params(|v: &u32| {
                calls.set(calls.get() + 1);
                Ok(format!("[{}]", v))
            })
            .unwrap();
        assert_eq!(text, "[5]");
    }
    assert_eq!(calls.get(), 1);
}

#[test]
fn params_failure_is_retried_next_time() {
    let calls = Cell::new(0u32);
    let mut params = ParamsOnce::Typed(9u32);
    assert_eq!(
        params.get(|_: &u32| {
            calls.set(calls.get() + 1);
            Err("cannot encode".to_string())
        }),
        Err("cannot encode".to_string())
    );
    for _ in 0..3 {
        let r = params.get(|v: &u32| {
            calls.set(calls.get() + 1);
            Ok(v.to_string())
        });
        assert_eq!(r, Ok("9".to_string()));
    }
    assert_eq!(calls.get(), 2);
    assert!(matches!(params, ParamsOnce::Serialized(ref s) if s == "9"));
}

#[test]
fn limit_is_enforced() {
    let mut p = poller().with_limit(Some(3));
    assert_eq!(p.start(true), Ok(()));
    assert_eq!(p.attach_timer(42), None);
    let mut delivered = 0;
    let mut cancelled = Vec::new();
    for _ in 0..10 {
        let outcome = p.record_success();
        if outcome.deliver {
            delivered += 1;
        }
        if let Some(t) = outcome.clear_timer {
            cancelled.push((delivered, t));
        }
    }
    assert_eq!(delivered, 3);
    assert_eq!(cancelled, vec![(3, 42)]);
    assert_eq!(p.phase(), PollPhase::LimitReached);
    assert_eq!(p.stop(), None);
}

#[test]
fn no_limit_delivers_every_success() {
    let mut p = poller();
    p.start(true).unwrap();
    assert_eq!(p.attach_timer(1), None);
    for _ in 0..1000 {
        assert_eq!(p.record_success(), TickOutcome { deliver: true, clear_timer: None });
    }
}

#[test]
fn limit_reached_on_the_first_poll_cancels_the_late_timer() {
    let mut p = poller().with_limit(Some(1));
    p.start(true).unwrap();
    assert_eq!(p.record_success(), TickOutcome { deliver: true, clear_timer: None });
    assert_eq!(p.attach_timer(5), Some(5));
    assert_eq!(p.record_success(), TickOutcome { deliver: false, clear_timer: None });
}

#[test]
fn stop_is_idempotent() {
    let mut p = poller();
    p.start(true).unwrap();
    assert_eq!(p.attach_timer(8), None);
    assert_eq!(p.phase(), PollPhase::Scheduled);
    assert_eq!(p.stop(), Some(8));
    assert_eq!(p.phase(), PollPhase::Stopped);
    assert_eq!(p.stop(), None);
    assert_eq!(p.stop(), None);
    assert_eq!(p.start(true), Err(PollerError::AlreadyStarted));
}

#[test]
fn in_flight_success_after_stop_still_delivers() {
    let mut p = poller().with_limit(Some(2));
    p.start(true).unwrap();
    p.attach_timer(3);
    assert_eq!(p.stop(), Some(3));
    assert_eq!(p.record_success(), TickOutcome { deliver: true, clear_timer: None });
    assert_eq!(p.record_success(), TickOutcome { deliver: true, clear_timer: None });
    assert_eq!(p.record_success(), TickOutcome { deliver: false, clear_timer: None });
}

#[test]
fn start_needs_a_live_client_once() {
    let mut p = poller();
    assert_eq!(p.start(false), Err(PollerError::ClientDropped));
    assert_eq!(p.start(true), Ok(()));
    assert_eq!(p.start(true), Err(PollerError::AlreadyStarted));
    assert_eq!(p.attach_timer(1), None);
    assert_eq!(p.attach_timer(2), Some(2));
}

#[test]
fn timer_before_start_is_refused() {
    let mut p = poller();
    assert_eq!(p.attach_timer(4), Some(4));
    assert_eq!(p.stop(), None);
    assert_eq!(p.start(true), Err(PollerError::AlreadyStarted));
    assert_eq!(p.phase(), PollPhase::Stopped);
}

#[test]
fn stream_is_unsupported() {
    assert_eq!(poller().into_stream(), Err(PollerError::StreamUnsupported));
}
