//! The supervisor's laws on concrete runs: session creation is serialized
//! and the ready patch is delivered at most once.

use willowblossom::supervisor::{ReadyPatch, Supervisor};

#[test]
fn ensure_started_spawns_once() {
    let mut s = Supervisor::new();
    let mut spawns = 0;
    for _ in 0..5 {
        if s.ensure_started() {
            spawns += 1;
        }
    }
    assert_eq!(spawns, 1);
    assert!(s.session_alive);
}

#[test]
fn ensure_started_noop_while_alive() {
    let mut s = Supervisor::new();
    assert!(s.ensure_started());
    assert!(!s.ensure_started());
    assert!(!s.ensure_started());
}

#[test]
fn poll_before_handshake_is_none() {
    let mut s = Supervisor::new();
    s.ensure_started();
    assert!(s.poll_ready_patch().is_none());
}

#[test]
fn patch_is_one_shot() {
    let mut s = Supervisor::new();
    s.ensure_started();
    s.complete_handshake(ReadyPatch::Failed);
    let first = s.poll_ready_patch();
    assert!(matches!(first, Some(ReadyPatch::Failed)));
    for _ in 0..10 {
        assert!(s.poll_ready_patch().is_none());
    }
}

#[test]
fn second_deposit_is_ignored() {
    let mut s = Supervisor::new();
    s.ensure_started();
    s.complete_handshake(ReadyPatch::Failed);
    assert!(s.poll_ready_patch().is_some());
    // A stray second deposit for the same session must not refill the slot.
    s.complete_handshake(ReadyPatch::Failed);
    assert!(s.poll_ready_patch().is_none());
}

#[test]
fn failed_handshake_ends_session() {
    let mut s = Supervisor::new();
    s.ensure_started();
    s.complete_handshake(ReadyPatch::Failed);
    assert!(!s.session_alive);
}

#[test]
fn session_ended_releases_task() {
    let mut s = Supervisor::new();
    s.ensure_started();
    s.session_ended();
    assert!(!s.session_alive);
}
