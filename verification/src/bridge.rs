//! The Frame-Loop Adapter: the consumer loop's one entry point into the
//! bridge, called once per tick and never blocking.
//!
//! Each tick performs, in order: (1) if no session was ever started, request
//! one; (2) collect the pending ready patch and apply it — install the
//! outbound handle and mark the connection ready, or record that the
//! handshake failed; (3) drain the inbound queue with bounded, non-blocking
//! pulls.  The drain is capped at [`DRAIN_BUDGET`] pulls per tick to bound
//! tick latency; what is not drained this tick is delivered, still in
//! arrival order, by later ticks.

use crate::queues::DequeueResult;
use crate::queues::InboundQueue;
use crate::queues::OutboundQueue;
use crate::queues::inbound_closed;
use crate::queues::inbound_items;
use crate::queues::outbound_items;
use crate::supervisor::ReadyPatch;
use crate::supervisor::Supervisor;
use vstd::prelude::*;

verus! {

/// How the consumer loop sees the session's lifecycle.  A session moves
/// from `Disconnected` through `Connecting` to `Connected`, and ends in
/// `Closed` when the handshake fails or the connection ends; `Closed` is
/// terminal, and a new session needs a fresh bridge.
#[derive(Clone, Copy, Debug, Hash, PartialEq, Eq, Structural)]
pub enum ConnectionState {
    Disconnected,
    Connecting,
    Connected,
    Closed,
}

/// The outbound handle: the capability to enqueue payloads for the
/// background writer.  It becomes visible to the consumer loop only when
/// the ready patch is applied.
pub struct MiraiIOSender(pub OutboundQueue);

/// The most inbound payloads one tick will pull from the inbound queue.
pub const DRAIN_BUDGET: usize = 32;

/// The payloads a bounded drain delivers: everything buffered, oldest
/// first, up to the budget.
pub open spec fn drain_take(items: Seq<String>, budget: nat) -> Seq<String> {
    if items.len() <= budget {
        items
    } else {
        items.take(budget as int)
    }
}

/// The payloads a bounded drain leaves buffered.
pub open spec fn drain_rest(items: Seq<String>, budget: nat) -> Seq<String> {
    if items.len() <= budget {
        Seq::empty()
    } else {
        items.skip(budget as int)
    }
}

/// FIFO across tick boundaries: two successive bounded drains deliver, end
/// to end, exactly the oldest payloads of the original buffer in their
/// arrival order, however the budgets split the drain; what remains is the
/// untouched tail.
pub proof fn lemma_fifo_across_ticks(items: Seq<String>, b1: nat, b2: nat)
    ensures
        drain_take(items, b1) + drain_take(drain_rest(items, b1), b2) == drain_take(
            items,
            b1 + b2,
        ),
        drain_rest(drain_rest(items, b1), b2) == drain_rest(items, b1 + b2),
{
    if items.len() <= b1 {
        assert(drain_take(items, b1) + drain_take(drain_rest(items, b1), b2) =~= items);
    } else if items.len() <= b1 + b2 {
        assert(drain_take(items, b1) + drain_take(drain_rest(items, b1), b2) =~= items);
        assert(drain_rest(drain_rest(items, b1), b2) =~= Seq::<String>::empty());
    } else {
        assert(drain_take(items, b1) + drain_take(drain_rest(items, b1), b2) =~= items.take(
            (b1 + b2) as int,
        ));
        assert(drain_rest(drain_rest(items, b1), b2) =~= items.skip((b1 + b2) as int));
    }
}

/// What one tick reported back to the host loop.
pub struct TickOutcome {
    /// Whether the host must now spawn the session task and run the
    /// handshake on the background context.
    pub spawn: bool,
    /// The inbound payloads drained this tick, in arrival order.  The host
    /// passes each one, in order, to the ingest hook.
    pub delivered: Vec<String>,
}

/// The whole bridge as the consumer loop owns it: the observed connection
/// state, the supervisor, the inbound queue, and the outbound handle once
/// installed.
pub struct Bridge {
    /// The connection state as observed by the consumer loop.
    pub state: ConnectionState,
    /// Serializes session creation and holds the pending ready patch.
    pub supervisor: Supervisor,
    /// Wire arrivals waiting to be drained into the consumer loop.
    pub inbound: InboundQueue,
    /// Whether the session task still holds the inbound producer side.
    pub inbound_open: bool,
    /// The outbound handle, present from the `Connected` transition on;
    /// stale but harmless once the state is `Closed`.
    pub outbound: Option<MiraiIOSender>,
}

impl Bridge {
    /// The inbound payloads buffered for the consumer loop, oldest first.
    pub open spec fn inbound_view(self) -> Seq<String> {
        inbound_items(self.inbound)
    }

    /// The payloads enqueued for the background writer, oldest first;
    /// nothing before the outbound handle is installed.
    pub open spec fn outbound_view(self) -> Seq<String> {
        match self.outbound {
            Some(h) => outbound_items(h.0),
            None => Seq::empty(),
        }
    }

    /// The bridge's invariant: the supervisor is well-formed, the open flag
    /// mirrors the inbound queue, the outbound handle exists exactly from
    /// the `Connected` transition on, a pending patch only awaits a
    /// `Connecting` observer, and before anything was started the
    /// supervisor is untouched.
    pub open spec fn wf(self) -> bool {
        &&& self.supervisor.wf()
        &&& self.inbound_open == !inbound_closed(self.inbound)
        &&& self.state is Connected ==> self.outbound is Some
        &&& (self.state is Disconnected || self.state is Connecting) ==> self.outbound is None
        &&& self.supervisor.pending is Some ==> self.state is Connecting
        &&& self.state is Disconnected ==> self.supervisor == Supervisor::init()
    }

    /// A fresh bridge: disconnected, nothing buffered, no handle.
    pub fn new() -> (b: Bridge)
        ensures
            b.wf(),
            b.state is Disconnected,
            b.supervisor == Supervisor::init(),
            b.inbound_view() == Seq::<String>::empty(),
            b.inbound_open,
            b.outbound is None,
    {
        Bridge {
            state: ConnectionState::Disconnected,
            supervisor: Supervisor::new(),
            inbound: InboundQueue::new(),
            inbound_open: true,
            outbound: None,
        }
    }

    /// The connection state after a tick's patch poll: an installed patch
    /// decides it, else a disconnected bridge starts connecting, else
    /// nothing changes.
    pub open spec fn tick_mid_state(self) -> ConnectionState {
        match self.supervisor.pending {
            Some(ReadyPatch::Ready(_)) => ConnectionState::Connected,
            Some(ReadyPatch::Failed) => ConnectionState::Closed,
            None => if self.state is Disconnected {
                ConnectionState::Connecting
            } else {
                self.state
            },
        }
    }

    /// Whether a tick's drain reaches the closed end of the inbound queue:
    /// it does exactly when the producer side is gone and the buffered
    /// payloads do not use up the whole budget.
    pub open spec fn tick_observes_close(self) -> bool {
        inbound_closed(self.inbound) && self.inbound_view().len() < DRAIN_BUDGET
    }

    /// The connection state a tick leaves behind.
    pub open spec fn tick_end_state(self) -> ConnectionState {
        if self.tick_observes_close() {
            ConnectionState::Closed
        } else {
            self.tick_mid_state()
        }
    }

    /// The supervisor a tick leaves behind: started if nothing was started
    /// yet, and with the patch slot emptied.
    pub open spec fn tick_supervisor(self) -> Supervisor {
        let started = if self.state is Disconnected {
            self.supervisor.ensure_started_spec()
        } else {
            self.supervisor
        };
        started.poll_spec().0
    }

    /// The outbound handle a tick leaves behind: the pending one if the
    /// patch was ready, else whatever was installed before.
    pub open spec fn tick_outbound(self) -> Option<MiraiIOSender> {
        match self.supervisor.pending {
            Some(ReadyPatch::Ready(h)) => Some(h),
            _ => self.outbound,
        }
    }

    /// A tick never leaves the bridge `Disconnected`, so only a bridge's
    /// very first tick can report that a session task must be spawned: one
    /// logical session per bridge.
    pub proof fn lemma_spawn_is_one_shot(self)
        requires
            self.wf(),
        ensures
            !(self.tick_end_state() is Disconnected),
    {
    }

    /// `Closed` is terminal: a tick on a closed bridge leaves it closed,
    /// and a fresh bridge is needed for a new session.
    pub proof fn lemma_closed_is_terminal(self)
        requires
            self.wf(),
            self.state is Closed,
        ensures
            self.tick_end_state() is Closed,
    {
    }

    /// One tick of the Frame-Loop Adapter.  Non-blocking: every operation
    /// is a poll, and the drain makes at most [`DRAIN_BUDGET`] pulls, so
    /// the tick returns in bounded time however stalled the background
    /// session is.  Delivery keeps arrival order, and reaching the inbound
    /// queue's closed end is the terminal observation that moves the state
    /// to `Closed`.
    pub fn tick(&mut self) -> (out: TickOutcome)
        requires
            old(self).wf(),
        ensures
            final(self).wf(),
            out.spawn == old(self).state is Disconnected,
            out.delivered@ == drain_take(old(self).inbound_view(), DRAIN_BUDGET as nat),
            out.delivered@.len() <= DRAIN_BUDGET,
            final(self).inbound_view() == drain_rest(old(self).inbound_view(), DRAIN_BUDGET as nat),
            final(self).state == old(self).tick_end_state(),
            final(self).supervisor == old(self).tick_supervisor(),
            final(self).outbound == old(self).tick_outbound(),
            final(self).inbound_open == old(self).inbound_open,
            inbound_closed(final(self).inbound) == inbound_closed(old(self).inbound),
    {
        let spawn = if matches!(self.state, ConnectionState::Disconnected) {
            let s = self.supervisor.ensure_started();
            self.state = ConnectionState::Connecting;
            s
        } else {
            false
        };
        match self.supervisor.poll_ready_patch() {
            Some(ReadyPatch::Ready(h)) => {
                self.outbound = Some(h);
                self.state = ConnectionState::Connected;
            },
            Some(ReadyPatch::Failed) => {
                self.state = ConnectionState::Closed;
            },
            None => {},
        }
        let ghost items0 = self.inbound_view();
        let ghost closed0 = inbound_closed(self.inbound);
        let ghost mid = *self;
        let mut delivered: Vec<String> = Vec::new();
        let mut pulls: usize = 0;
        while pulls < DRAIN_BUDGET
            invariant_except_break
                pulls <= DRAIN_BUDGET,
                pulls <= items0.len(),
                delivered@ == items0.take(pulls as int),
                self.inbound_view() == items0.skip(pulls as int),
                inbound_closed(self.inbound) == closed0,
                self.state == mid.state,
                self.supervisor == mid.supervisor,
                self.outbound == mid.outbound,
                self.inbound_open == mid.inbound_open,
            ensures
                delivered@ == drain_take(items0, DRAIN_BUDGET as nat),
                self.inbound_view() == drain_rest(items0, DRAIN_BUDGET as nat),
                inbound_closed(self.inbound) == closed0,
                self.state == (if closed0 && items0.len() < DRAIN_BUDGET {
                    ConnectionState::Closed
                } else {
                    mid.state
                }),
                self.supervisor == mid.supervisor,
                self.outbound == mid.outbound,
                self.inbound_open == mid.inbound_open,
            decreases DRAIN_BUDGET - pulls,
        {
            match self.inbound.try_dequeue() {
                DequeueResult::Item(m) => {
                    proof {
                        assert(items0.skip(pulls as int).drop_first() =~= items0.skip(
                            pulls + 1 as int,
                        ));
                        assert(items0.take(pulls as int).push(items0[pulls as int]) =~= items0.take(
                            pulls + 1 as int,
                        ));
                    }
                    delivered.push(m);
                    pulls += 1;
                },
                DequeueResult::Empty => {
                    proof {
                        assert(items0.take(pulls as int) =~= items0);
                        assert(drain_rest(items0, DRAIN_BUDGET as nat) =~= items0.skip(
                            pulls as int,
                        ));
                    }
                    break ;
                },
                DequeueResult::Closed => {
                    self.state = ConnectionState::Closed;
                    proof {
                        assert(items0.take(pulls as int) =~= items0);
                        assert(drain_rest(items0, DRAIN_BUDGET as nat) =~= items0.skip(
                            pulls as int,
                        ));
                    }
                    break ;
                },
            }
        }
        proof {
            if items0.len() >= DRAIN_BUDGET {
                assert(drain_take(items0, DRAIN_BUDGET as nat) =~= items0.take(
                    DRAIN_BUDGET as int,
                ));
            }
        }
        TickOutcome { spawn, delivered }
    }

    /// Enqueue one outbound payload from the consumer loop.  Accepted
    /// exactly while the connection is ready: before the `Connected`
    /// transition and after `Closed` the payload is rejected and nothing —
    /// bridge state included — changes.  Never blocks.
    pub fn enqueue_outbound(&mut self, m: String) -> (accepted: bool)
        requires
            old(self).wf(),
        ensures
            final(self).wf(),
            accepted == old(self).state is Connected,
            accepted ==> {
                &&& final(self).outbound_view() == old(self).outbound_view().push(m)
                &&& final(self).state == old(self).state
                &&& final(self).supervisor == old(self).supervisor
                &&& final(self).inbound == old(self).inbound
                &&& final(self).inbound_open == old(self).inbound_open
                &&& final(self).outbound is Some
            },
            !accepted ==> *final(self) == *old(self),
    {
        if matches!(self.state, ConnectionState::Connected) {
            match &mut self.outbound {
                Some(h) => {
                    h.0.enqueue(m);
                    true
                },
                None => vstd::pervasive::unreached(),
            }
        } else {
            false
        }
    }

    /// The background reader's port: push one wire arrival onto the inbound
    /// queue.  Only the live session task calls this, so the producer side
    /// is still open.
    pub fn wire_arrival(&mut self, m: String)
        requires
            old(self).wf(),
            old(self).inbound_open,
        ensures
            final(self).wf(),
            final(self).inbound_view() == old(self).inbound_view().push(m),
            final(self).inbound_open,
            final(self).state == old(self).state,
            final(self).supervisor == old(self).supervisor,
            final(self).outbound == old(self).outbound,
    {
        self.inbound.enqueue(m);
    }

    /// The background writer's port: take the next payload to transmit, in
    /// FIFO order, without blocking.
    pub fn writer_take(&mut self) -> (r: DequeueResult)
        requires
            old(self).wf(),
            old(self).outbound is Some,
        ensures
            final(self).wf(),
            old(self).outbound_view().len() > 0 ==> {
                &&& r == DequeueResult::Item(old(self).outbound_view()[0])
                &&& final(self).outbound_view() == old(self).outbound_view().drop_first()
            },
            old(self).outbound_view().len() == 0 ==> {
                &&& r == DequeueResult::Empty
                &&& final(self).outbound_view() == old(self).outbound_view()
            },
            final(self).outbound is Some,
            final(self).state == old(self).state,
            final(self).supervisor == old(self).supervisor,
            final(self).inbound == old(self).inbound,
            final(self).inbound_open == old(self).inbound_open,
    {
        match &mut self.outbound {
            Some(h) => h.0.try_dequeue(),
            None => vstd::pervasive::unreached(),
        }
    }

    /// The session task's teardown port: the task drops its inbound
    /// producer side as it ends, which the consumer loop will observe as a
    /// terminal close during a later tick's drain.
    pub fn session_close(&mut self)
        requires
            old(self).wf(),
        ensures
            final(self).wf(),
            !final(self).inbound_open,
            inbound_closed(final(self).inbound),
            final(self).inbound_view() == old(self).inbound_view(),
            final(self).state == old(self).state,
            final(self).supervisor == old(self).supervisor,
            final(self).outbound == old(self).outbound,
    {
        self.inbound.close();
        self.inbound_open = false;
    }

    /// The background handshake's success port: create the outbound
    /// channel and deposit the ready patch, capturing the new handle, in
    /// the supervisor's one-shot slot.
    pub fn handshake_succeeded(&mut self)
        requires
            old(self).wf(),
            old(self).state is Connecting,
            old(self).supervisor.session_alive,
            !old(self).supervisor.patch_emitted,
        ensures
            final(self).wf(),
            final(self).supervisor.session_alive,
            final(self).supervisor.patch_emitted,
            final(self).supervisor.pending matches Some(ReadyPatch::Ready(h)) && outbound_items(
                h.0,
            ) == Seq::<String>::empty(),
            final(self).state == old(self).state,
            final(self).inbound == old(self).inbound,
            final(self).inbound_open == old(self).inbound_open,
            final(self).outbound == old(self).outbound,
    {
        let handle = MiraiIOSender(OutboundQueue::new());
        self.supervisor.complete_handshake(ReadyPatch::Ready(handle));
    }

    /// The background handshake's failure port: report, through the same
    /// one-shot slot, that the connection could not be established; the
    /// session task is over.
    pub fn handshake_failed(&mut self)
        requires
            old(self).wf(),
            old(self).state is Connecting,
            old(self).supervisor.session_alive,
            !old(self).supervisor.patch_emitted,
        ensures
            final(self).wf(),
            !final(self).supervisor.session_alive,
            final(self).supervisor.patch_emitted,
            final(self).supervisor.pending == Some(ReadyPatch::Failed),
            final(self).state == old(self).state,
            final(self).inbound == old(self).inbound,
            final(self).inbound_open == old(self).inbound_open,
            final(self).outbound == old(self).outbound,
    {
        self.supervisor.complete_handshake(ReadyPatch::Failed);
    }
}

} // verus!
