//! The Frame-Loop Adapter's lifecycle: spawn on the first tick, the
//! one-shot ready patch, outbound gating, and the terminal close.

use willowblossom::bridge::{Bridge, ConnectionState, DRAIN_BUDGET};
use willowblossom::queues::DequeueResult;

#[test]
fn first_tick_spawns_exactly_once() {
    let mut b = Bridge::new();
    let out = b.tick();
    assert!(out.spawn);
    assert_eq!(b.state, ConnectionState::Connecting);
    for _ in 0..5 {
        let again = b.tick();
        assert!(!again.spawn);
    }
}

#[test]
fn handshake_success_installs_handle_once() {
    let mut b = Bridge::new();
    b.tick();
    b.handshake_succeeded();
    let out = b.tick();
    assert!(!out.spawn);
    assert_eq!(b.state, ConnectionState::Connected);
    assert!(b.outbound.is_some());
    // Later ticks find the slot empty and change nothing.
    b.tick();
    assert_eq!(b.state, ConnectionState::Connected);
}

#[test]
fn handshake_failure_closes() {
    let mut b = Bridge::new();
    b.tick();
    b.handshake_failed();
    b.tick();
    assert_eq!(b.state, ConnectionState::Closed);
    assert!(b.outbound.is_none());
    assert!(!b.enqueue_outbound("nope".to_string()));
}

#[test]
fn enqueue_before_connected_is_rejected() {
    let mut b = Bridge::new();
    assert!(!b.enqueue_outbound("early".to_string()));
    b.tick();
    assert!(!b.enqueue_outbound("still early".to_string()));
}

#[test]
fn enqueue_when_connected_reaches_writer() {
    let mut b = Bridge::new();
    b.tick();
    b.handshake_succeeded();
    b.tick();
    assert!(b.enqueue_outbound("hello".to_string()));
    assert_eq!(b.writer_take(), DequeueResult::Item("hello".to_string()));
    assert_eq!(b.writer_take(), DequeueResult::Empty);
}

#[test]
fn outbound_is_fifo() {
    let mut b = Bridge::new();
    b.tick();
    b.handshake_succeeded();
    b.tick();
    assert!(b.enqueue_outbound("a".to_string()));
    assert!(b.enqueue_outbound("b".to_string()));
    assert!(b.enqueue_outbound("c".to_string()));
    assert_eq!(b.writer_take(), DequeueResult::Item("a".to_string()));
    assert_eq!(b.writer_take(), DequeueResult::Item("b".to_string()));
    assert_eq!(b.writer_take(), DequeueResult::Item("c".to_string()));
    assert_eq!(b.writer_take(), DequeueResult::Empty);
}

#[test]
fn terminal_close_rejects_later_sends() {
    let mut b = Bridge::new();
    b.tick();
    b.handshake_succeeded();
    b.tick();
    assert_eq!(b.state, ConnectionState::Connected);
    // The peer closes: the session task tears down and drops its producer
    // side; the next tick observes the terminal close.
    b.session_close();
    b.tick();
    assert_eq!(b.state, ConnectionState::Closed);
    assert!(!b.enqueue_outbound("after close".to_string()));
    assert_eq!(b.state, ConnectionState::Closed);
    // Closed is terminal: further ticks neither leave it nor respawn.
    for _ in 0..3 {
        let out = b.tick();
        assert!(!out.spawn);
        assert_eq!(b.state, ConnectionState::Closed);
    }
}

#[test]
fn patch_and_arrivals_in_the_same_tick() {
    // There is no ordering guarantee between the ready patch and inbound
    // arrivals: one tick must handle both being present at once.
    let mut b = Bridge::new();
    b.tick();
    b.handshake_succeeded();
    b.wire_arrival("first".to_string());
    b.wire_arrival("second".to_string());
    let out = b.tick();
    assert_eq!(b.state, ConnectionState::Connected);
    assert_eq!(out.delivered, vec!["first".to_string(), "second".to_string()]);
}

#[test]
fn tick_is_non_blocking_while_session_stalls() {
    // A hung connection produces no events at all; ticks must still return
    // promptly, within the drain budget, without waiting on the session.
    let mut b = Bridge::new();
    b.tick();
    b.handshake_succeeded();
    b.tick();
    let start = std::time::Instant::now();
    for _ in 0..100 {
        let out = b.tick();
        assert!(out.delivered.len() <= DRAIN_BUDGET);
        assert!(out.delivered.is_empty());
    }
    assert!(start.elapsed() < std::time::Duration::from_secs(5));
}
