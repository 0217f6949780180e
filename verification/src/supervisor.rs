//! The Connection Supervisor: it serializes session creation and hands the
//! result of the handshake to the consumer loop through a one-shot slot.
//!
//! The supervisor is owned by the consumer loop.  `ensure_started` is
//! idempotent: however often it is called, a new session task is requested
//! only while none is owned.  When the handshake resolves, the background
//! domain deposits a [`ReadyPatch`] in the slot at most once per session, and
//! `poll_ready_patch` hands it out at most once: a second poll returns
//! nothing even if the first poll's result was never applied.

use crate::bridge::MiraiIOSender;
use vstd::prelude::*;

verus! {

/// The one-shot state transition handed from the background domain to the
/// consumer loop when the handshake resolves: either the outbound handle to
/// install, or the news that the connection could not be established.
pub enum ReadyPatch {
    /// The handshake succeeded; install this outbound handle.
    Ready(MiraiIOSender),
    /// The handshake failed; the session is over before it began.
    Failed,
}

/// Tracks whether a session task is owned, and holds the pending ready
/// patch, if any.  The patch slot is the only place the handshake's outcome
/// crosses the domain boundary.
pub struct Supervisor {
    /// Whether a session task is currently owned.  This is the sole place
    /// that may be consulted to prevent duplicate sessions.
    pub session_alive: bool,
    /// The patch waiting to be collected by the consumer loop.
    pub pending: Option<ReadyPatch>,
    /// Whether this session's patch has already been produced.  Set when the
    /// slot is filled and never cleared, so the slot is filled at most once
    /// per session.
    pub patch_emitted: bool,
}

impl Supervisor {
    /// A supervisor before any session exists.
    pub open spec fn init() -> Supervisor {
        Supervisor { session_alive: false, pending: None, patch_emitted: false }
    }

    /// The slot is filled only after the patch has been recorded as emitted.
    pub open spec fn wf(self) -> bool {
        self.pending is Some ==> self.patch_emitted
    }

    pub fn new() -> (s: Supervisor)
        ensures
            s == Supervisor::init(),
    {
        Supervisor { session_alive: false, pending: None, patch_emitted: false }
    }

    /// What `ensure_started` does: once a session task is owned, nothing.
    pub open spec fn ensure_started_spec(self) -> Supervisor {
        Supervisor { session_alive: true, ..self }
    }

    /// Request a session task unless one is already owned.  Returns whether
    /// the caller must now spawn the task and run the handshake on the
    /// background context; for any number of calls, that is true only on the
    /// first one of a session.
    pub fn ensure_started(&mut self) -> (spawn: bool)
        ensures
            *final(self) == old(self).ensure_started_spec(),
            spawn == !old(self).session_alive,
    {
        let spawn = !self.session_alive;
        self.session_alive = true;
        spawn
    }

    /// What depositing the handshake's outcome does: the slot is filled and
    /// the emission recorded, but only for a live session that has not
    /// emitted its patch yet; a failed handshake also ends the session task.
    pub open spec fn complete_handshake_spec(self, patch: ReadyPatch) -> Supervisor {
        if self.session_alive && !self.patch_emitted {
            Supervisor {
                session_alive: !(patch is Failed),
                pending: Some(patch),
                patch_emitted: true,
            }
        } else {
            self
        }
    }

    /// Deposit the handshake's outcome in the one-shot slot.  Called from
    /// the background domain exactly when the handshake resolves; the
    /// emitted flag keeps the slot one-shot even against a stray second
    /// deposit.
    pub fn complete_handshake(&mut self, patch: ReadyPatch)
        ensures
            *final(self) == old(self).complete_handshake_spec(patch),
    {
        if self.session_alive && !self.patch_emitted {
            self.session_alive = !matches!(patch, ReadyPatch::Failed);
            self.pending = Some(patch);
            self.patch_emitted = true;
        }
    }

    /// What polling the slot does: a pending patch is taken, an empty slot
    /// stays empty.
    pub open spec fn poll_spec(self) -> (Supervisor, Option<ReadyPatch>) {
        if self.pending is Some {
            (Supervisor { pending: None, ..self }, self.pending)
        } else {
            (self, None)
        }
    }

    /// Collect the pending ready patch, if one is waiting.  Non-blocking and
    /// one-shot: once a patch has been returned, every later poll returns
    /// nothing, whether or not the patch was applied.
    pub fn poll_ready_patch(&mut self) -> (r: Option<ReadyPatch>)
        ensures
            *final(self) == old(self).poll_spec().0,
            r == old(self).poll_spec().1,
    {
        self.pending.take()
    }

    /// Record that the owned session task has ended (its connection closed
    /// or failed after the handshake).
    pub fn session_ended(&mut self)
        ensures
            *final(self) == (Supervisor { session_alive: false, ..*old(self) }),
    {
        self.session_alive = false;
    }
}

/// How many of `n` consecutive `ensure_started` calls on `s` report that a
/// task must be spawned.
pub open spec fn spawns_in(s: Supervisor, n: nat) -> nat
    decreases n,
{
    if n == 0 {
        0
    } else {
        (if s.session_alive { 0nat } else { 1nat }) + spawns_in(
            s.ensure_started_spec(),
            (n - 1) as nat,
        )
    }
}

/// While a session task is owned, `ensure_started` never requests another,
/// however often it is called.
pub proof fn lemma_no_duplicate_session(s: Supervisor, n: nat)
    requires
        s.session_alive,
    ensures
        spawns_in(s, n) == 0,
    decreases n,
{
    if n > 0 {
        lemma_no_duplicate_session(s.ensure_started_spec(), (n - 1) as nat);
    }
}

/// Single-session law: starting with no session task owned, any number
/// `n >= 1` of consecutive `ensure_started` calls requests exactly one
/// session task.
pub proof fn lemma_single_session(s: Supervisor, n: nat)
    requires
        !s.session_alive,
        n >= 1,
    ensures
        spawns_in(s, n) == 1,
{
    lemma_no_duplicate_session(s.ensure_started_spec(), (n - 1) as nat);
}

/// One operation of the consumer loop or the background domain on the
/// supervisor.
pub enum SupervisorOp {
    EnsureStarted,
    Complete(ReadyPatch),
    Poll,
    SessionEnded,
}

/// The supervisor after one operation.
pub open spec fn apply_op(s: Supervisor, op: SupervisorOp) -> Supervisor {
    match op {
        SupervisorOp::EnsureStarted => s.ensure_started_spec(),
        SupervisorOp::Complete(patch) => s.complete_handshake_spec(patch),
        SupervisorOp::Poll => s.poll_spec().0,
        SupervisorOp::SessionEnded => Supervisor { session_alive: false, ..s },
    }
}

/// How many polls among `ops`, run in order from `s`, return a patch.
pub open spec fn patches_delivered(s: Supervisor, ops: Seq<SupervisorOp>) -> nat
    decreases ops.len(),
{
    if ops.len() == 0 {
        0
    } else {
        (if ops[0] is Poll && s.pending is Some { 1nat } else { 0nat }) + patches_delivered(
            apply_op(s, ops[0]),
            ops.drop_first(),
        )
    }
}

/// How many patches a supervisor state can still deliver: one while the
/// patch is pending or not yet produced, none once it has been produced and
/// taken.
pub open spec fn patches_left(s: Supervisor) -> nat {
    if s.pending is Some {
        1
    } else if !s.patch_emitted {
        1
    } else {
        0
    }
}

/// Every operation preserves well-formedness, and no sequence of operations
/// delivers more patches than the state has left.
pub proof fn lemma_patches_bounded(s: Supervisor, ops: Seq<SupervisorOp>)
    requires
        s.wf(),
    ensures
        patches_delivered(s, ops) <= patches_left(s),
        apply_op_all(s, ops).wf(),
    decreases ops.len(),
{
    if ops.len() > 0 {
        lemma_patches_bounded(apply_op(s, ops[0]), ops.drop_first());
    }
}

/// The supervisor after a whole sequence of operations.
pub open spec fn apply_op_all(s: Supervisor, ops: Seq<SupervisorOp>) -> Supervisor
    decreases ops.len(),
{
    if ops.len() == 0 {
        s
    } else {
        apply_op_all(apply_op(s, ops[0]), ops.drop_first())
    }
}

/// One-shot patch law: from a state holding a pending patch, a poll returns
/// it, and across any operations that follow — further polls included — no
/// patch is ever returned again.
pub proof fn lemma_patch_one_shot(s: Supervisor, ops: Seq<SupervisorOp>)
    requires
        s.wf(),
        s.pending is Some,
        ops.len() >= 1,
        ops[0] is Poll,
    ensures
        patches_delivered(s, ops) == 1,
{
    lemma_patches_bounded(apply_op(s, ops[0]), ops.drop_first());
}

/// A whole run never delivers more than one patch: from a fresh supervisor,
/// whatever the consumer loop and the background domain do, at most one poll
/// returns a patch.
pub proof fn lemma_patch_at_most_once(ops: Seq<SupervisorOp>)
    ensures
        patches_delivered(Supervisor::init(), ops) <= 1,
{
    lemma_patches_bounded(Supervisor::init(), ops);
}

} // verus!
