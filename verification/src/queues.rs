//! The two FIFO channels that cross the concurrency-domain boundary.
//!
//! The inbound queue carries payloads from the background reader to the
//! consumer loop; the outbound queue carries payloads from the consumer loop
//! to the background writer.  Each is a real channel of an outside crate,
//! held whole (both endpoints) so that its contents can be tracked: the
//! contents and the closed flag are named by uninterpreted spec functions,
//! and each operation is a trusted wrapper whose contract states what the
//! channel's own source shows.  Per-endpoint declarations cannot state these
//! contracts, because a send through one endpoint changes what the other
//! endpoint observes.

use vstd::prelude::*;

verus! {

/// What one non-blocking pull from a queue observed.
#[derive(Clone, Debug, PartialEq, Eq)]
pub enum DequeueResult {
    /// The next payload, in FIFO order.
    Item(String),
    /// Nothing buffered, but more may still arrive.
    Empty,
    /// Nothing buffered and the producer side is gone: no more items will
    /// ever arrive.  Terminal, not transient.
    Closed,
}

/// The payloads buffered in the inbound queue, oldest first.
pub uninterp spec fn inbound_items(q: InboundQueue) -> Seq<String>;

/// Whether the inbound queue's producer side has been dropped.
pub uninterp spec fn inbound_closed(q: InboundQueue) -> bool;

/// The Inbound Queue: an unbounded FIFO channel from the background reader
/// to the consumer loop.  Backed by a crossbeam channel; the sender half is
/// dropped when the session task ends, which the consumer observes as
/// [`DequeueResult::Closed`].
#[verifier::external_body]
pub struct InboundQueue {
    tx: Option<crossbeam_channel::Sender<String>>,
    rx: crossbeam_channel::Receiver<String>,
}

impl InboundQueue {
    /// Relies on `crossbeam_channel::unbounded`: a fresh channel buffers
    /// nothing and both endpoints are live.
    #[verifier::external_body]
    pub fn new() -> (q: InboundQueue)
        ensures
            inbound_items(q) == Seq::<String>::empty(),
            !inbound_closed(q),
    {
        let (tx, rx) = crossbeam_channel::unbounded();
        InboundQueue { tx: Some(tx), rx }
    }

    /// Relies on `crossbeam_channel::Sender::send`: on an unbounded channel
    /// whose receiver is live it never blocks and appends the payload behind
    /// everything already buffered.
    #[verifier::external_body]
    pub fn enqueue(&mut self, m: String)
        requires
            !inbound_closed(*old(self)),
        ensures
            inbound_items(*final(self)) == inbound_items(*old(self)).push(m),
            !inbound_closed(*final(self)),
    {
        if let Some(tx) = &self.tx {
            let _ = tx.send(m);
        }
    }

    /// Relies on dropping `crossbeam_channel::Sender`: once the only sender
    /// is gone the channel is disconnected, but payloads already buffered
    /// remain receivable.
    #[verifier::external_body]
    pub fn close(&mut self)
        ensures
            inbound_items(*final(self)) == inbound_items(*old(self)),
            inbound_closed(*final(self)),
    {
        self.tx = None;
    }

    /// Relies on `crossbeam_channel::Receiver::try_recv`: it never blocks; it
    /// yields the oldest buffered payload if there is one (even after
    /// disconnection), reports `Empty` on an empty live channel, and reports
    /// `Disconnected` only on an empty disconnected channel.
    #[verifier::external_body]
    pub fn try_dequeue(&mut self) -> (r: DequeueResult)
        ensures
            inbound_closed(*final(self)) == inbound_closed(*old(self)),
            inbound_items(*old(self)).len() > 0 ==> {
                &&& r == DequeueResult::Item(inbound_items(*old(self))[0])
                &&& inbound_items(*final(self)) == inbound_items(*old(self)).drop_first()
            },
            inbound_items(*old(self)).len() == 0 ==> {
                &&& inbound_items(*final(self)) == inbound_items(*old(self))
                &&& r == (if inbound_closed(*old(self)) {
                    DequeueResult::Closed
                } else {
                    DequeueResult::Empty
                })
            },
    {
        match self.rx.try_recv() {
            Ok(m) => DequeueResult::Item(m),
            Err(crossbeam_channel::TryRecvError::Empty) => DequeueResult::Empty,
            Err(crossbeam_channel::TryRecvError::Disconnected) => DequeueResult::Closed,
        }
    }
}

/// The payloads buffered in the outbound queue, oldest first.
pub uninterp spec fn outbound_items(q: OutboundQueue) -> Seq<String>;

/// The Outbound Queue: an unbounded FIFO channel from the consumer loop to
/// the background writer.  Backed by a tokio unbounded mpsc channel; both
/// endpoints stay owned here, so the channel is never disconnected and a
/// pull observes either the oldest payload or `Empty`.
#[verifier::external_body]
pub struct OutboundQueue {
    tx: tokio::sync::mpsc::UnboundedSender<String>,
    rx: tokio::sync::mpsc::UnboundedReceiver<String>,
}

impl OutboundQueue {
    /// Relies on `tokio::sync::mpsc::unbounded_channel`: a fresh channel
    /// buffers nothing.
    #[verifier::external_body]
    pub fn new() -> (q: OutboundQueue)
        ensures
            outbound_items(q) == Seq::<String>::empty(),
    {
        let (tx, rx) = tokio::sync::mpsc::unbounded_channel();
        OutboundQueue { tx, rx }
    }

    /// Relies on `tokio::sync::mpsc::UnboundedSender::send`: it never waits
    /// and, with the receiver live, appends the payload behind everything
    /// already buffered.
    #[verifier::external_body]
    pub fn enqueue(&mut self, m: String)
        ensures
            outbound_items(*final(self)) == outbound_items(*old(self)).push(m),
    {
        let _ = self.tx.send(m);
    }

    /// Relies on `tokio::sync::mpsc::UnboundedReceiver::try_recv`: it never
    /// blocks and yields the oldest buffered payload, or `Empty` when nothing
    /// is buffered; with a sender still owned here it never reports
    /// disconnection.
    #[verifier::external_body]
    pub fn try_dequeue(&mut self) -> (r: DequeueResult)
        ensures
            outbound_items(*old(self)).len() > 0 ==> {
                &&& r == DequeueResult::Item(outbound_items(*old(self))[0])
                &&& outbound_items(*final(self)) == outbound_items(*old(self)).drop_first()
            },
            outbound_items(*old(self)).len() == 0 ==> {
                &&& outbound_items(*final(self)) == outbound_items(*old(self))
                &&& r == DequeueResult::Empty
            },
    {
        match self.rx.try_recv() {
            Ok(m) => DequeueResult::Item(m),
            Err(_) => DequeueResult::Empty,
        }
    }
}

} // verus!
