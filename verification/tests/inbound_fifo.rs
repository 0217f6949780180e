//! FIFO delivery through the inbound queue, with and without tick
//! boundaries splitting the drain, and the closed-channel observation.

use willowblossom::bridge::{Bridge, ConnectionState, DRAIN_BUDGET};

#[test]
fn arrivals_are_delivered_in_order() {
    let mut b = Bridge::new();
    b.wire_arrival("M1".to_string());
    b.wire_arrival("M2".to_string());
    b.wire_arrival("M3".to_string());
    let out = b.tick();
    assert_eq!(
        out.delivered,
        vec!["M1".to_string(), "M2".to_string(), "M3".to_string()]
    );
}

#[test]
fn order_is_kept_across_tick_boundaries() {
    let mut b = Bridge::new();
    let total = DRAIN_BUDGET + 8;
    for i in 0..total {
        b.wire_arrival(format!("msg-{}", i));
    }
    let first = b.tick();
    assert_eq!(first.delivered.len(), DRAIN_BUDGET);
    let second = b.tick();
    assert_eq!(second.delivered.len(), 8);
    let mut all = first.delivered;
    all.extend(second.delivered);
    for (i, m) in all.iter().enumerate() {
        assert_eq!(*m, format!("msg-{}", i));
    }
    let third = b.tick();
    assert!(third.delivered.is_empty());
}

#[test]
fn buffered_arrivals_survive_session_close() {
    let mut b = Bridge::new();
    b.wire_arrival("early".to_string());
    b.wire_arrival("late".to_string());
    b.session_close();
    let out = b.tick();
    // Everything buffered before the close is still delivered, in order,
    // and the same tick observes the terminal close behind it.
    assert_eq!(out.delivered, vec!["early".to_string(), "late".to_string()]);
    assert_eq!(b.state, ConnectionState::Closed);
}

#[test]
fn close_behind_full_budget_waits_a_tick() {
    let mut b = Bridge::new();
    for i in 0..DRAIN_BUDGET {
        b.wire_arrival(format!("m{}", i));
    }
    b.session_close();
    let first = b.tick();
    // The budget is used up by buffered payloads, so the closed end is not
    // reached yet.
    assert_eq!(first.delivered.len(), DRAIN_BUDGET);
    assert_ne!(b.state, ConnectionState::Closed);
    let second = b.tick();
    assert!(second.delivered.is_empty());
    assert_eq!(b.state, ConnectionState::Closed);
}

#[test]
fn empty_tick_delivers_nothing() {
    let mut b = Bridge::new();
    let out = b.tick();
    assert!(out.delivered.is_empty());
    assert_eq!(b.state, ConnectionState::Connecting);
}
