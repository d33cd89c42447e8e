//! The locked steps on a worker's status that the rest of the library
//! builds on (a read, and the step that starts an abort or a cancel), and
//! the evidence each leaves of what it found.
use super::{panic_transition, start_transition, StatusCell, StatusModel, WorkerFlagSnapshot, WorkerStatus};
use std::sync::Arc;
use crate::internal::lock::{guarded, lock, replace_guarded};
use vstd::prelude::*;

verus! {

/// What one attempt to start an abort or a cancel found: on which worker
/// status, toward which phase, and the status read there in the same locked
/// step that stored its successor. Only `WorkerStatus::try_move` makes one.
pub struct StatusMove {
    status: Ghost<WorkerStatus>,
    target: WorkerFlagSnapshot,
    observed: StatusCell,
}

impl StatusMove {
    /// The worker status the attempt was made on.
    pub closed spec fn status(&self) -> WorkerStatus {
        self.status@
    }

    /// The phase the attempt moved toward.
    pub closed spec fn target(&self) -> WorkerFlagSnapshot {
        self.target
    }

    /// The status found.
    pub closed spec fn observed(&self) -> StatusModel {
        self.observed@
    }

    /// Whether the attempt moved the phase.
    pub open spec fn started_spec(&self) -> bool {
        start_transition(self.observed(), self.target()).1
    }

    /// The status stored by the attempt.
    pub open spec fn next(&self) -> StatusModel {
        start_transition(self.observed(), self.target()).0
    }

    /// Whether the attempt moved the phase: exactly when the phase found was
    /// `Other`.
    pub fn started(&self) -> (b: bool)
        ensures
            b == self.started_spec(),
            b == (self.observed().flag == WorkerFlagSnapshot::Other),
    {
        match self.observed.flag() {
            WorkerFlagSnapshot::Other => true,
            _ => false,
        }
    }
}

/// An attempt to start moves the phase to its target exactly when it found
/// the phase `Other`, keeping the recorded message; otherwise it stores what
/// it found.
pub proof fn law_a_start_moves_only_from_other(m: StatusMove)
    ensures
        m.started_spec() == (m.observed().flag == WorkerFlagSnapshot::Other),
        m.started_spec() ==> m.next().flag == m.target() && m.next().task_panic_msg == m.observed().task_panic_msg,
        !m.started_spec() ==> m.next() == m.observed(),
{
}

/// What one locked read of a worker's status found. Only
/// `WorkerStatus::read` makes one.
pub struct StatusRead {
    status: Ghost<WorkerStatus>,
    cell: StatusCell,
}

impl StatusRead {
    /// The worker status that was read.
    pub closed spec fn status(&self) -> WorkerStatus {
        self.status@
    }

    /// The status found there.
    pub closed spec fn cell(&self) -> StatusCell {
        self.cell
    }

    /// The status found.
    pub fn into_cell(self) -> (c: StatusCell)
        ensures
            c == self.cell(),
            c@.wf(),
    {
        proof {
            use_type_invariant(&self.cell);
        }
        self.cell
    }
}

/// Whether `c` is what a read of `status` found.
pub open spec fn read_from(c: StatusCell, status: WorkerStatus) -> bool {
    exists|rd: StatusRead| rd.status() == status && #[trigger] rd.cell() == c
}

/// What recording a task panic found and recorded: on which worker status,
/// the status found there and the message given, in the locked step that
/// stored their `panic_transition`. Only `WorkerStatus::record_panic` makes one.
pub struct PanicRecord {
    status: Ghost<WorkerStatus>,
    observed: StatusCell,
    msg: Ghost<Option<Arc<String>>>,
}

impl PanicRecord {
    /// The worker status the panic was recorded on.
    pub closed spec fn status(&self) -> WorkerStatus {
        self.status@
    }

    /// The status found.
    pub closed spec fn observed(&self) -> StatusModel {
        self.observed@
    }

    /// The message given.
    pub closed spec fn msg(&self) -> Option<Arc<String>> {
        self.msg@
    }

    /// The status stored.
    pub open spec fn next(&self) -> StatusModel {
        panic_transition(self.observed(), self.msg())
    }
}

impl WorkerStatus {
    /// Records a task panic in one locked step: the phase becomes
    /// `TaskPanicked`, and the message is kept unless one was recorded before.
    pub fn record_panic(&self, msg: Option<Arc<String>>) -> (p: PanicRecord)
        ensures
            p.status() == *self,
            p.msg() == msg,
    {
        let ghost given = msg;
        let mut guard = lock(&self.cell);
        let observed = guarded(&guard).duplicate();
        let next = guarded(&guard).mark_task_panicked(msg);
        let _ = replace_guarded(&mut guard, next);
        PanicRecord { status: Ghost(*self), observed, msg: Ghost(given) }
    }

    /// Reads the status, phase and message together, in one locked step.
    pub fn read(&self) -> (rd: StatusRead)
        ensures
            rd.status() == *self,
    {
        let guard = lock(&self.cell);
        StatusRead { status: Ghost(*self), cell: guarded(&guard).duplicate() }
    }

    /// Tries to move the phase from `Other` to `target`: reads the status
    /// and stores `start_transition` of it, in one locked step, and returns
    /// what it found.
    pub fn try_move(&self, target: WorkerFlagSnapshot) -> (m: StatusMove)
        requires
            target == WorkerFlagSnapshot::AbortStarted || target == WorkerFlagSnapshot::CancelStarted,
        ensures
            m.status() == *self,
            m.target() == target,
    {
        let mut guard = lock(&self.cell);
        let observed = guarded(&guard).duplicate();
        let (next, _started) = guarded(&guard).try_start(target);
        let _ = replace_guarded(&mut guard, next);
        StatusMove { status: Ghost(*self), target, observed }
    }
}

} // verus!
