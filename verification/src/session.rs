//! Per-session startup bookkeeping.
//!
//! One application session spawns at most one sidecar process and schedules
//! at most one update task. The session hands out at most one grant for
//! each, and a failed sidecar spawn aborts startup: after the abort no
//! update task can be scheduled at all.

use vstd::prelude::*;

verus! {

/// The one fatal startup condition: the bundled sidecar executable is
/// missing or could not be started.
#[derive(Clone, Copy, Debug, PartialEq, Eq, Structural)]
pub enum StartupError {
    SidecarSpawn,
}

impl StartupError {
    /// The diagnostic the application aborts with.
    pub fn message(&self) -> (m: String)
        ensures
            m@ == "failed to spawn sidecar"@,
    {
        "failed to spawn sidecar".to_owned()
    }
}

/// What one application session has done so far.
#[derive(Clone, Copy, Debug, PartialEq, Eq, Structural)]
pub struct Session {
    /// A grant to spawn the sidecar has been handed out.
    pub sidecar_spawned: bool,
    /// A grant to schedule the update task has been handed out.
    pub update_scheduled: bool,
    /// Startup was aborted by a failed sidecar spawn.
    pub aborted: bool,
}

/// One bookkeeping call made during a session.
pub enum SessionOp {
    ClaimSidecar,
    ClaimUpdateTask,
    AbortStartup,
}

/// What `try_claim_sidecar` does and whether it grants.
pub open spec fn spec_claim_sidecar(s: Session) -> (Session, bool) {
    let granted = !s.sidecar_spawned && !s.aborted;
    (Session { sidecar_spawned: s.sidecar_spawned || granted, ..s }, granted)
}

/// What `try_claim_update_task` does and whether it grants: the update
/// task comes after the sidecar and never after an abort.
pub open spec fn spec_claim_update_task(s: Session) -> (Session, bool) {
    let granted = !s.update_scheduled && s.sidecar_spawned && !s.aborted;
    (Session { update_scheduled: s.update_scheduled || granted, ..s }, granted)
}

/// What `abort_startup` does.
pub open spec fn spec_abort_startup(s: Session) -> Session {
    Session { aborted: true, ..s }
}

/// One bookkeeping call applied to a session state.
pub open spec fn session_step(s: Session, op: SessionOp) -> Session {
    match op {
        SessionOp::ClaimSidecar => spec_claim_sidecar(s).0,
        SessionOp::ClaimUpdateTask => spec_claim_update_task(s).0,
        SessionOp::AbortStartup => spec_abort_startup(s),
    }
}

/// A whole session run: the calls applied in order, oldest first.
pub open spec fn session_run(s: Session, ops: Seq<SessionOp>) -> Session
    decreases ops.len(),
{
    if ops.len() == 0 {
        s
    } else {
        session_step(session_run(s, ops.drop_last()), ops.last())
    }
}

/// How many sidecar grants a run hands out.
pub open spec fn sidecar_grants(s: Session, ops: Seq<SessionOp>) -> nat
    decreases ops.len(),
{
    if ops.len() == 0 {
        0
    } else {
        let before = session_run(s, ops.drop_last());
        sidecar_grants(s, ops.drop_last()) + match ops.last() {
            SessionOp::ClaimSidecar => if spec_claim_sidecar(before).1 {
                1nat
            } else {
                0nat
            },
            _ => 0nat,
        }
    }
}

/// How many update-task grants a run hands out.
pub open spec fn update_task_grants(s: Session, ops: Seq<SessionOp>) -> nat
    decreases ops.len(),
{
    if ops.len() == 0 {
        0
    } else {
        let before = session_run(s, ops.drop_last());
        update_task_grants(s, ops.drop_last()) + match ops.last() {
            SessionOp::ClaimUpdateTask => if spec_claim_update_task(before).1 {
                1nat
            } else {
                0nat
            },
            _ => 0nat,
        }
    }
}

impl Session {
    /// A fresh session: nothing spawned, nothing scheduled, not aborted.
    pub fn new() -> (s: Session)
        ensures
            s == (Session { sidecar_spawned: false, update_scheduled: false, aborted: false }),
    {
        Session { sidecar_spawned: false, update_scheduled: false, aborted: false }
    }

    /// Asks for the right to spawn the sidecar. Granted exactly once per
    /// session, and never after an abort.
    pub fn try_claim_sidecar(&mut self) -> (granted: bool)
        ensures
            granted == spec_claim_sidecar(*old(self)).1,
            *final(self) == spec_claim_sidecar(*old(self)).0,
    {
        let granted = !self.sidecar_spawned && !self.aborted;
        if granted {
            self.sidecar_spawned = true;
        }
        granted
    }

    /// Asks for the right to schedule the update task. Granted exactly
    /// once per session, only after the sidecar was spawned, and never
    /// after an abort.
    pub fn try_claim_update_task(&mut self) -> (granted: bool)
        ensures
            granted == spec_claim_update_task(*old(self)).1,
            *final(self) == spec_claim_update_task(*old(self)).0,
    {
        let granted = !self.update_scheduled && self.sidecar_spawned && !self.aborted;
        if granted {
            self.update_scheduled = true;
        }
        granted
    }

    /// The sidecar could not be spawned: startup aborts, fast and fatally,
    /// and returns the diagnostic error.
    pub fn abort_startup(&mut self) -> (e: StartupError)
        ensures
            *final(self) == spec_abort_startup(*old(self)),
            e == StartupError::SidecarSpawn,
    {
        self.aborted = true;
        StartupError::SidecarSpawn
    }
}

/// Once the sidecar grant is gone, no run ever hands out another.
pub proof fn lemma_no_second_sidecar_grant(s: Session, ops: Seq<SessionOp>)
    requires
        s.sidecar_spawned,
    ensures
        sidecar_grants(s, ops) == 0,
        session_run(s, ops).sidecar_spawned,
    decreases ops.len(),
{
    if ops.len() > 0 {
        lemma_no_second_sidecar_grant(s, ops.drop_last());
    }
}

/// At most one sidecar process per session: a run from a fresh session
/// hands out at most one sidecar grant.
pub proof fn lemma_at_most_one_sidecar(s: Session, ops: Seq<SessionOp>)
    requires
        !s.sidecar_spawned,
    ensures
        sidecar_grants(s, ops) <= 1,
{
    if ops.len() > 0 {
        lemma_sidecar_grant_spent(s, ops.drop_last());
    }
}

/// A run that ends with the sidecar grant still available handed none out.
proof fn lemma_sidecar_grant_spent(s: Session, ops: Seq<SessionOp>)
    requires
        !s.sidecar_spawned,
    ensures
        sidecar_grants(s, ops) == (if session_run(s, ops).sidecar_spawned {
            1nat
        } else {
            0nat
        }),
    decreases ops.len(),
{
    if ops.len() > 0 {
        lemma_sidecar_grant_spent(s, ops.drop_last());
    }
}

/// Once the update-task grant is gone, no run ever hands out another.
pub proof fn lemma_no_second_update_task_grant(s: Session, ops: Seq<SessionOp>)
    requires
        s.update_scheduled,
    ensures
        update_task_grants(s, ops) == 0,
        session_run(s, ops).update_scheduled,
    decreases ops.len(),
{
    if ops.len() > 0 {
        lemma_no_second_update_task_grant(s, ops.drop_last());
    }
}

/// At most one update task per session.
pub proof fn lemma_at_most_one_update_task(s: Session, ops: Seq<SessionOp>)
    requires
        !s.update_scheduled,
    ensures
        update_task_grants(s, ops) <= 1,
{
    if ops.len() > 0 {
        lemma_update_task_grant_spent(s, ops.drop_last());
    }
}

/// A run that ends with the update-task grant still available handed none
/// out.
proof fn lemma_update_task_grant_spent(s: Session, ops: Seq<SessionOp>)
    requires
        !s.update_scheduled,
    ensures
        update_task_grants(s, ops) == (if session_run(s, ops).update_scheduled {
            1nat
        } else {
            0nat
        }),
    decreases ops.len(),
{
    if ops.len() > 0 {
        lemma_update_task_grant_spent(s, ops.drop_last());
    }
}

/// An abort is sticky: no later call clears it.
pub proof fn lemma_abort_is_sticky(s: Session, ops: Seq<SessionOp>)
    requires
        s.aborted,
    ensures
        session_run(s, ops).aborted,
    decreases ops.len(),
{
    if ops.len() > 0 {
        lemma_abort_is_sticky(s, ops.drop_last());
    }
}

/// A failed sidecar spawn leaves no partially-initialized session: after
/// the abort, no update task is ever granted or scheduled, whatever calls
/// follow.
pub proof fn lemma_abort_blocks_update_task(s: Session, ops: Seq<SessionOp>)
    requires
        s.aborted,
        !s.update_scheduled,
    ensures
        update_task_grants(s, ops) == 0,
        !session_run(s, ops).update_scheduled,
    decreases ops.len(),
{
    if ops.len() > 0 {
        lemma_abort_blocks_update_task(s, ops.drop_last());
        lemma_abort_is_sticky(s, ops.drop_last());
    }
}

} // verus!
