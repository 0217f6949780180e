//! The Session Task's decision logic.
//!
//! The task itself runs on a background execution context and owns the live
//! connection: one duty reads wire frames, the other drains the outbound
//! queue.  Everything it decides is the pure step function here: the caller
//! performs the I/O, hands each observation in as a [`SessionEvent`], and
//! carries out the returned [`SessionAction`].  If either duty ends, the
//! whole session ends: no action keeps a surviving duty alive.

use vstd::prelude::*;

verus! {

/// A wire frame as the session's reader duty sees it.  A binary frame is
/// held in its textual form, which is all the bridge ever reads of it.
#[derive(Clone, Debug, PartialEq, Eq)]
pub enum WireFrame {
    Text(String),
    Binary(String),
    Ping,
    Pong,
    CloseFrame,
}

/// One observation made by the session task while it runs.
#[derive(Clone, Debug, PartialEq, Eq)]
pub enum SessionEvent {
    /// The reader duty received a wire frame.
    Frame(WireFrame),
    /// The wire stream ended without a close frame.
    WireEnd,
    /// A read or write on the wire failed.
    WireError,
    /// The writer duty took this payload from the outbound queue.
    Outbound(String),
    /// The outbound queue's producer side is gone: no more sends will come.
    OutboundEnd,
}

/// What the session task does in response to one observation.
#[derive(Clone, Debug, PartialEq, Eq)]
pub enum SessionAction {
    /// Push this payload onto the inbound queue.
    Forward(String),
    /// Send this payload on the wire.
    Transmit(String),
    /// Do nothing and keep both duties running.
    Ignore,
    /// Tear the connection down and end the session entirely.
    Terminate,
}

/// The session's response to each observation: data frames (text or binary)
/// are forwarded inbound, control frames are ignored, outbound payloads are
/// transmitted, and a close frame, the end of either stream, or any wire
/// error terminates the session.
pub open spec fn classify(ev: SessionEvent) -> SessionAction {
    match ev {
        SessionEvent::Frame(WireFrame::Text(t)) => SessionAction::Forward(t),
        SessionEvent::Frame(WireFrame::Binary(t)) => SessionAction::Forward(t),
        SessionEvent::Frame(WireFrame::Ping) => SessionAction::Ignore,
        SessionEvent::Frame(WireFrame::Pong) => SessionAction::Ignore,
        SessionEvent::Frame(WireFrame::CloseFrame) => SessionAction::Terminate,
        SessionEvent::WireEnd => SessionAction::Terminate,
        SessionEvent::WireError => SessionAction::Terminate,
        SessionEvent::Outbound(m) => SessionAction::Transmit(m),
        SessionEvent::OutboundEnd => SessionAction::Terminate,
    }
}

/// Decide the session task's response to one observation.
pub fn session_step(ev: SessionEvent) -> (a: SessionAction)
    ensures
        a == classify(ev),
{
    match ev {
        SessionEvent::Frame(WireFrame::Text(t)) => SessionAction::Forward(t),
        SessionEvent::Frame(WireFrame::Binary(t)) => SessionAction::Forward(t),
        SessionEvent::Frame(WireFrame::Ping) => SessionAction::Ignore,
        SessionEvent::Frame(WireFrame::Pong) => SessionAction::Ignore,
        SessionEvent::Frame(WireFrame::CloseFrame) => SessionAction::Terminate,
        SessionEvent::WireEnd => SessionAction::Terminate,
        SessionEvent::WireError => SessionAction::Terminate,
        SessionEvent::Outbound(m) => SessionAction::Transmit(m),
        SessionEvent::OutboundEnd => SessionAction::Terminate,
    }
}

/// The lifecycle of one session task: it steps until an observation
/// terminates it, and a terminated task never steps again.
#[derive(Clone, Debug, PartialEq, Eq)]
pub struct SessionTask {
    pub done: bool,
}

impl SessionTask {
    /// A freshly spawned session task, with both duties running.
    pub fn new() -> (t: SessionTask)
        ensures
            !t.done,
    {
        SessionTask { done: false }
    }

    /// Respond to one observation.  The task ends exactly when the response
    /// is to terminate; afterwards it must not be stepped again.
    pub fn step(&mut self, ev: SessionEvent) -> (a: SessionAction)
        requires
            !old(self).done,
        ensures
            a == classify(ev),
            final(self).done == (a is Terminate),
    {
        let a = session_step(ev);
        let ends = matches!(a, SessionAction::Terminate);
        self.done = ends;
        a
    }
}

} // verus!
