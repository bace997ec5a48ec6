//! The supervisor owns the single live child handle.  Its state is a slot
//! that is either empty or holds exactly one handle; every transition is a
//! take or a store-if-empty, so no two callers can ever act on the same live
//! handle and no second child can be stored while one is live.

use vstd::prelude::*;

verus! {

/// What the supervisor's logic reads of the live subprocess: its process
/// identifier.  The host keeps the real OS handle keyed by this identifier
/// and performs the actual kill when the supervisor hands a handle out.
#[derive(Clone, Copy, PartialEq, Eq, Structural, Debug)]
pub struct ChildHandle {
    pub pid: u32,
}

/// The operating system refused to create the child process (for example the
/// executable was not found).  Carries the OS error code for logging.
#[derive(Clone, Copy, PartialEq, Eq, Structural, Debug)]
pub struct SpawnError {
    pub os_code: i32,
}

/// The operating system refused to terminate the child process.  The host
/// logs it as a warning and continues shutting down; it is never retried.
#[derive(Clone, Copy, PartialEq, Eq, Structural, Debug)]
pub struct KillError {
    pub os_code: i32,
}

/// One operation of the supervisor lifecycle, for stating laws over whole
/// call sequences.
pub enum SupervisorOp {
    /// A spawn attempt: on success `child` is stored if the slot is empty.
    Start { child: ChildHandle, spawn_ok: bool },
    /// A shutdown trigger: take the handle (if any) and request its kill.
    Stop,
    /// The child exited on its own: clear the slot without a kill request.
    NotifyExited,
}

/// The state transition of one supervisor operation.
pub open spec fn sup_step(st: Option<ChildHandle>, op: SupervisorOp) -> Option<ChildHandle> {
    match op {
        SupervisorOp::Start { child, spawn_ok } => if spawn_ok && st is None {
            Some(child)
        } else {
            st
        },
        SupervisorOp::Stop => None,
        SupervisorOp::NotifyExited => None,
    }
}

/// The kill request an operation emits: only a `Stop` on an occupied slot
/// asks the host to kill, and it asks for exactly the handle it took.
pub open spec fn sup_kill_request(st: Option<ChildHandle>, op: SupervisorOp) -> Option<
    ChildHandle,
> {
    match op {
        SupervisorOp::Stop => st,
        _ => None,
    }
}

/// The state after a whole sequence of operations, applied in order.
pub open spec fn sup_run(st: Option<ChildHandle>, ops: Seq<SupervisorOp>) -> Option<ChildHandle>
    decreases ops.len(),
{
    if ops.len() == 0 {
        st
    } else {
        sup_step(sup_run(st, ops.drop_last()), ops.last())
    }
}

/// How many live handles a slot state holds.
pub open spec fn live_children(st: Option<ChildHandle>) -> nat {
    if st is Some {
        1
    } else {
        0
    }
}

/// At-most-one-child: starting from an empty slot, after any sequence of
/// `start`/`stop`/`notify_exited` operations the state never holds more than
/// one live handle.
pub proof fn lemma_at_most_one_child(ops: Seq<SupervisorOp>)
    ensures
        forall|i: int|
            0 <= i <= ops.len() ==> live_children(sup_run(None, ops.subrange(0, i))) <= 1,
{
}

/// Idempotent stop: of two consecutive `stop` operations, only the first can
/// emit a kill request, and it requests exactly the handle that was live; the
/// second finds the slot already empty and requests nothing.
pub proof fn lemma_stop_idempotent(st: Option<ChildHandle>)
    ensures
        sup_kill_request(st, SupervisorOp::Stop) == st,
        sup_step(st, SupervisorOp::Stop) is None,
        sup_kill_request(sup_step(st, SupervisorOp::Stop), SupervisorOp::Stop) is None,
{
}

/// Notify-after-exit consistency: once the child's own exit has been
/// recorded, a later `stop` finds the slot empty and emits no kill request
/// for the already-gone process.
pub proof fn lemma_stop_after_exit(st: Option<ChildHandle>)
    ensures
        sup_step(st, SupervisorOp::NotifyExited) is None,
        sup_kill_request(sup_step(st, SupervisorOp::NotifyExited), SupervisorOp::Stop) is None,
{
}

/// The single source of truth for "is there a live child, and which".  The
/// slot is private: callers can only store into an empty slot or take the
/// whole handle out, which preserves the at-most-one-child invariant by
/// construction.  The host wraps this in its mutual-exclusion primitive; each
/// method here is one atomic read-modify-write of the slot.
pub struct Supervisor {
    slot: Option<ChildHandle>,
}

impl Supervisor {
    /// The abstract state: the live child handle, if one is stored.
    pub closed spec fn model(&self) -> Option<ChildHandle> {
        self.slot
    }

    /// A fresh supervisor holds no child.
    pub fn new() -> (s: Supervisor)
        ensures
            s.model() is None,
    {
        Supervisor { slot: None }
    }

    /// Whether a live child is currently stored.
    pub fn has_child(&self) -> (b: bool)
        ensures
            b == (self.model() is Some),
    {
        self.slot.is_some()
    }

    /// Store a freshly spawned child, but only if the slot is empty: a second
    /// store is refused rather than leaking or replacing the live handle.
    pub fn store_child(&mut self, child: ChildHandle) -> (stored: bool)
        ensures
            final(self).model() == sup_step(
                old(self).model(),
                SupervisorOp::Start { child, spawn_ok: true },
            ),
            stored == (old(self).model() is None),
            stored ==> final(self).model() == Some(child),
            !stored ==> final(self).model() == old(self).model(),
    {
        if self.slot.is_none() {
            self.slot = Some(child);
            true
        } else {
            false
        }
    }

    /// Record the outcome of one spawn attempt.  On success the handle is
    /// stored; on failure the slot stays empty and the error is returned so
    /// the host can log it and continue in degraded mode (no backend).
    pub fn start(&mut self, spawn_result: Result<ChildHandle, SpawnError>) -> (r: Result<
        (),
        SpawnError,
    >)
        requires
            old(self).model() is None,
        ensures
            match spawn_result {
                Ok(child) => r is Ok && final(self).model() == Some(child),
                Err(e) => r == Err::<(), SpawnError>(e) && final(self).model() is None,
            },
    {
        match spawn_result {
            Ok(child) => {
                self.slot = Some(child);
                Ok(())
            },
            Err(e) => Err(e),
        }
    }

    /// Take the live handle out, leaving the slot empty.  Of two concurrent
    /// takers serialized by the host's lock, only one can get `Some`.
    pub fn take_child(&mut self) -> (taken: Option<ChildHandle>)
        ensures
            final(self).model() is None,
            taken == old(self).model(),
    {
        self.slot.take()
    }

    /// A shutdown trigger fired: take the handle and return it as the kill
    /// request the host must carry out.  Idempotent: a second call finds the
    /// slot empty and returns `None`, so exactly one trigger performs the
    /// kill.  A kill failure is the host's to log and swallow.
    pub fn stop(&mut self) -> (kill: Option<ChildHandle>)
        ensures
            final(self).model() == sup_step(old(self).model(), SupervisorOp::Stop),
            kill == sup_kill_request(old(self).model(), SupervisorOp::Stop),
    {
        self.slot.take()
    }

    /// The child exited on its own: clear the slot without emitting a kill
    /// request, so no redundant kill is attempted on the dead process.
    pub fn notify_exited(&mut self)
        ensures
            final(self).model() == sup_step(old(self).model(), SupervisorOp::NotifyExited),
    {
        self.slot = None;
    }
}

} // verus!
