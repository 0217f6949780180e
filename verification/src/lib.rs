//! A concurrency bridge between a long-lived network session and a
//! single-threaded, fixed-cadence frame loop.
//!
//! The frame loop may never block: every operation it performs on the bridge
//! is a non-blocking poll.  The network session lives on a background
//! execution context and communicates with the frame loop only through two
//! FIFO channels and a one-shot ready-patch slot.  This crate verifies the
//! bridge's state machine: session creation is serialized, the ready patch is
//! delivered exactly once, inbound delivery preserves wire arrival order, and
//! outbound sends are gated on the connection being ready.

pub mod bridge;
pub mod manager;
pub mod message;
pub mod queues;
pub mod session;
pub mod supervisor;
