//! The decisions of the worker loop, the Tokio task that runs a worker's
//! tasks one after the other. The loop itself (waiting on the queue, running
//! a task on the blocking pool or in place, catching its panic) is driven
//! outside; it reports each thing that happened as an event and performs the
//! action that `WorkerLoop::step` returns.
use super::worker::WorkerFlagSnapshot;
use vstd::prelude::*;

verus! {

/// How running one task ended.
#[derive(Clone, Copy, Debug, PartialEq, Eq, Structural)]
pub enum TaskRunOutcome {
    /// The task returned (its result went to its handle).
    Returned,
    /// The task panicked; the panic was caught.
    Panicked,
    /// The state could not be reached (it was taken by a join racing a
    /// runtime shutdown, or the blocking pool dropped the task).
    StateUnavailable,
}

/// Something that happened to the loop.
#[derive(Clone, Copy, Debug, PartialEq, Eq, Structural)]
pub enum LoopEvent {
    /// A task came out of the queue; the worker's phase was read just after.
    TaskReceived(WorkerFlagSnapshot),
    /// The queue is closed and empty.
    QueueClosed,
    /// The loop tried to take the task out of its cell: `false` when the task
    /// had been cancelled through its handle.
    TaskTaken(bool),
    /// The task that was running ended.
    TaskFinished(TaskRunOutcome),
}

/// What the loop does next.
#[derive(Clone, Copy, Debug, PartialEq, Eq, Structural)]
pub enum LoopAction {
    /// Wait for the next task in the queue.
    ReceiveNext,
    /// Take the received task out of its cell.
    TakeTask,
    /// Run the task that was taken.
    RunTask,
    /// Record the panic in the worker's status, hand it to the task's handle,
    /// and end the loop with an error.
    ReportPanicAndStop,
    /// End the loop: with `Ok(())` when `clean`, with an error otherwise.
    Stop(bool),
}

/// Where the loop is.
#[derive(Clone, Copy, Debug, PartialEq, Eq, Structural)]
pub enum LoopPhase {
    /// Waiting for the queue.
    Waiting,
    /// A task was received and is to be taken.
    Taking,
    /// A task is running.
    Running,
    /// The loop ended: cleanly when the flag is set.
    Ended(bool),
}

/// The events that the loop can receive in a phase.
pub open spec fn accepts(phase: LoopPhase, event: LoopEvent) -> bool {
    match phase {
        LoopPhase::Waiting => event is TaskReceived || event is QueueClosed,
        LoopPhase::Taking => event is TaskTaken,
        LoopPhase::Running => event is TaskFinished,
        LoopPhase::Ended(_) => false,
    }
}

/// The phase that follows an accepted event, and the action the loop takes.
pub open spec fn next(phase: LoopPhase, event: LoopEvent) -> (LoopPhase, LoopAction) {
    match event {
        LoopEvent::TaskReceived(flag) => if flag == WorkerFlagSnapshot::CancelStarted {
            (LoopPhase::Ended(true), LoopAction::Stop(true))
        } else {
            (LoopPhase::Taking, LoopAction::TakeTask)
        },
        LoopEvent::QueueClosed => (LoopPhase::Ended(true), LoopAction::Stop(true)),
        LoopEvent::TaskTaken(present) => if present {
            (LoopPhase::Running, LoopAction::RunTask)
        } else {
            (LoopPhase::Waiting, LoopAction::ReceiveNext)
        },
        LoopEvent::TaskFinished(outcome) => match outcome {
            TaskRunOutcome::Returned => (LoopPhase::Waiting, LoopAction::ReceiveNext),
            TaskRunOutcome::Panicked => (LoopPhase::Ended(false), LoopAction::ReportPanicAndStop),
            TaskRunOutcome::StateUnavailable => (LoopPhase::Ended(false), LoopAction::Stop(false)),
        },
    }
}

/// The decision state of one worker loop.
pub struct WorkerLoop {
    phase: LoopPhase,
}

impl WorkerLoop {
    pub closed spec fn phase(&self) -> LoopPhase {
        self.phase
    }

    /// A loop that waits for its first task.
    pub fn new() -> (l: WorkerLoop)
        ensures
            l.phase() == LoopPhase::Waiting,
    {
        WorkerLoop { phase: LoopPhase::Waiting }
    }

    /// Whether the loop accepts the event in its current phase.
    pub fn accepts(&self, event: LoopEvent) -> (r: bool)
        ensures
            r == accepts(self.phase(), event),
    {
        match self.phase {
            LoopPhase::Waiting => match event {
                LoopEvent::TaskReceived(_) | LoopEvent::QueueClosed => true,
                _ => false,
            },
            LoopPhase::Taking => match event {
                LoopEvent::TaskTaken(_) => true,
                _ => false,
            },
            LoopPhase::Running => match event {
                LoopEvent::TaskFinished(_) => true,
                _ => false,
            },
            LoopPhase::Ended(_) => false,
        }
    }

    /// Takes in one event and says what to do next.
    ///
    /// A task that comes out of the queue after a cancel started is not run,
    /// and ends the loop cleanly; a task cancelled through its handle is
    /// skipped; a task panic ends the loop, so no later task runs.
    pub fn step(&mut self, event: LoopEvent) -> (action: LoopAction)
        requires
            accepts(old(self).phase(), event),
        ensures
            (final(self).phase(), action) == next(old(self).phase(), event),
    {
        let (phase, action) = match event {
            LoopEvent::TaskReceived(flag) => match flag {
                WorkerFlagSnapshot::CancelStarted => (LoopPhase::Ended(true), LoopAction::Stop(true)),
                _ => (LoopPhase::Taking, LoopAction::TakeTask),
            },
            LoopEvent::QueueClosed => (LoopPhase::Ended(true), LoopAction::Stop(true)),
            LoopEvent::TaskTaken(present) => if present {
                (LoopPhase::Running, LoopAction::RunTask)
            } else {
                (LoopPhase::Waiting, LoopAction::ReceiveNext)
            },
            LoopEvent::TaskFinished(outcome) => match outcome {
                TaskRunOutcome::Returned => (LoopPhase::Waiting, LoopAction::ReceiveNext),
                TaskRunOutcome::Panicked => (LoopPhase::Ended(false), LoopAction::ReportPanicAndStop),
                TaskRunOutcome::StateUnavailable => (LoopPhase::Ended(false), LoopAction::Stop(false)),
            },
        };
        self.phase = phase;
        action
    }

    /// Once the loop has ended: whether it ended cleanly.
    pub fn ended(&self) -> (r: Option<bool>)
        ensures
            r == (match self.phase() {
                LoopPhase::Ended(clean) => Some(clean),
                _ => None,
            }),
    {
        match self.phase {
            LoopPhase::Ended(clean) => Some(clean),
            _ => None,
        }
    }
}

/// Runs the loop's decisions over a sequence of events from `phase`:
/// `None` when some event is not accepted where it comes, else the final
/// phase and the action taken for each event.
pub open spec fn run(phase: LoopPhase, events: Seq<LoopEvent>) -> Option<(LoopPhase, Seq<LoopAction>)>
    decreases events.len(),
{
    if events.len() == 0 {
        Some((phase, Seq::empty()))
    } else if !accepts(phase, events[0]) {
        None
    } else {
        let (p, a) = next(phase, events[0]);
        match run(p, events.drop_first()) {
            Some((last, actions)) => Some((last, seq![a] + actions)),
            None => None,
        }
    }
}

/// A run takes exactly one action per event.
pub proof fn lemma_run_len(phase: LoopPhase, events: Seq<LoopEvent>)
    requires
        run(phase, events) is Some,
    ensures
        run(phase, events)->Some_0.1.len() == events.len(),
    decreases events.len(),
{
    if events.len() > 0 {
        let (p, a) = next(phase, events[0]);
        lemma_run_len(p, events.drop_first());
    }
}

/// Whether an action ends the loop.
pub open spec fn ends_loop(action: LoopAction) -> bool {
    action is ReportPanicAndStop || action is Stop
}

/// An ended loop takes no further event.
pub proof fn law_ended_loop_accepts_nothing(clean: bool, event: LoopEvent)
    ensures
        !accepts(LoopPhase::Ended(clean), event),
{
}

/// Once the loop decides to stop (after a task panic, after a cancel, after
/// the queue closed, or after the state became unreachable) it takes no
/// further event: the action that ends the loop is the last action of any run.
/// In particular no task runs after a task panicked.
pub proof fn law_stop_is_last(phase: LoopPhase, events: Seq<LoopEvent>)
    requires
        run(phase, events) is Some,
    ensures
        forall|i: int|
            0 <= i < events.len() && #[trigger] ends_loop(run(phase, events)->Some_0.1[i]) ==> i == events.len() - 1,
    decreases events.len(),
{
    let (p, a) = next(phase, events[0]);
    let rest = events.drop_first();
    if events.len() > 0 {
        law_stop_is_last(p, rest);
        lemma_run_len(p, rest);
        let actions = run(phase, events)->Some_0.1;
        assert(actions == seq![a] + run(p, rest)->Some_0.1);
        if ends_loop(a) {
            assert(p is Ended);
            if rest.len() > 0 {
                assert(!accepts(p, rest[0]));
            }
        }
        assert forall|i: int| 0 <= i < events.len() && #[trigger] ends_loop(actions[i]) implies i == events.len() - 1 by {
            if i > 0 {
                assert(actions[i] == run(p, rest)->Some_0.1[i - 1]);
            }
        }
    }
}

/// A task runs only right after it was taken out of its cell, which follows
/// right after it came out of the queue in a phase other than
/// `CancelStarted` (or the run started at the taking step).
pub proof fn law_task_runs_only_when_received_and_taken(phase: LoopPhase, events: Seq<LoopEvent>)
    requires
        run(phase, events) is Some,
    ensures
        forall|i: int|
            0 <= i < events.len() && #[trigger] run(phase, events)->Some_0.1[i] == LoopAction::RunTask ==> {
                &&& events[i] == LoopEvent::TaskTaken(true)
                &&& i == 0 ==> phase == LoopPhase::Taking
                &&& i > 0 ==> (events[i - 1] is TaskReceived && events[i - 1]->TaskReceived_0
                    != WorkerFlagSnapshot::CancelStarted)
            },
    decreases events.len(),
{
    if events.len() > 0 {
        let (p, a) = next(phase, events[0]);
        let rest = events.drop_first();
        law_task_runs_only_when_received_and_taken(p, rest);
        lemma_run_len(p, rest);
        let actions = run(phase, events)->Some_0.1;
        assert(actions == seq![a] + run(p, rest)->Some_0.1);
        assert forall|i: int|
            0 <= i < events.len() && #[trigger] actions[i] == LoopAction::RunTask implies {
                &&& events[i] == LoopEvent::TaskTaken(true)
                &&& i == 0 ==> phase == LoopPhase::Taking
                &&& i > 0 ==> (events[i - 1] is TaskReceived && events[i - 1]->TaskReceived_0
                    != WorkerFlagSnapshot::CancelStarted)
            } by {
            if i > 0 {
                assert(actions[i] == run(p, rest)->Some_0.1[i - 1]);
                assert(events[i] == rest[i - 1]);
                if i == 1 {
                    assert(p == LoopPhase::Taking);
                }
            }
        }
    }
}

/// Tasks run one at a time: the event that follows running a task is that
/// task ending.
pub proof fn law_tasks_run_one_at_a_time(phase: LoopPhase, events: Seq<LoopEvent>)
    requires
        run(phase, events) is Some,
    ensures
        forall|i: int|
            0 <= i < events.len() - 1 && #[trigger] run(phase, events)->Some_0.1[i] == LoopAction::RunTask
                ==> events[i + 1] is TaskFinished,
    decreases events.len(),
{
    if events.len() > 0 {
        let (p, a) = next(phase, events[0]);
        let rest = events.drop_first();
        law_tasks_run_one_at_a_time(p, rest);
        lemma_run_len(p, rest);
        let actions = run(phase, events)->Some_0.1;
        assert(actions == seq![a] + run(p, rest)->Some_0.1);
        assert forall|i: int|
            0 <= i < events.len() - 1 && #[trigger] actions[i] == LoopAction::RunTask implies events[i + 1] is TaskFinished by {
            assert(events[i + 1] == rest[i]);
            if i > 0 {
                assert(actions[i] == run(p, rest)->Some_0.1[i - 1]);
            } else {
                assert(p == LoopPhase::Running);
                assert(accepts(p, rest[0]));
            }
        }
    }
}

/// The events of one task that comes out of the queue while the worker
/// runs normally: taken out of its cell and run (it returns) when `runs`,
/// else found cancelled through its handle.
pub open spec fn task_events(runs: bool) -> Seq<LoopEvent> {
    if runs {
        seq![
            LoopEvent::TaskReceived(WorkerFlagSnapshot::Other),
            LoopEvent::TaskTaken(true),
            LoopEvent::TaskFinished(TaskRunOutcome::Returned),
        ]
    } else {
        seq![LoopEvent::TaskReceived(WorkerFlagSnapshot::Other), LoopEvent::TaskTaken(false)]
    }
}

/// The actions the loop takes for one such task.
pub open spec fn task_actions(runs: bool) -> Seq<LoopAction> {
    if runs {
        seq![LoopAction::TakeTask, LoopAction::RunTask, LoopAction::ReceiveNext]
    } else {
        seq![LoopAction::TakeTask, LoopAction::ReceiveNext]
    }
}

/// The events of tasks coming out of the queue one after the other; `runs[i]`
/// says whether the i-th one was still in its cell.
pub open spec fn tasks_events(runs: Seq<bool>) -> Seq<LoopEvent>
    decreases runs.len(),
{
    if runs.len() == 0 {
        Seq::empty()
    } else {
        task_events(runs[0]) + tasks_events(runs.drop_first())
    }
}

/// The actions for those tasks.
pub open spec fn tasks_actions(runs: Seq<bool>) -> Seq<LoopAction>
    decreases runs.len(),
{
    if runs.len() == 0 {
        Seq::empty()
    } else {
        task_actions(runs[0]) + tasks_actions(runs.drop_first())
    }
}

/// Running the loop over two stretches of events is running it over the
/// first, then over the second from where the first left it.
pub proof fn lemma_run_append(phase: LoopPhase, a: Seq<LoopEvent>, b: Seq<LoopEvent>)
    requires
        run(phase, a) is Some,
    ensures
        run(phase, a + b) == (match run(run(phase, a)->Some_0.0, b) {
            Some((last, acts)) => Some((last, run(phase, a)->Some_0.1 + acts)),
            None => None,
        }),
    decreases a.len(),
{
    if a.len() == 0 {
        assert(a + b =~= b);
        match run(phase, b) {
            Some((last, acts)) => {
                assert(Seq::<LoopAction>::empty() + acts =~= acts);
            },
            None => {},
        }
    } else {
        let (p, act) = next(phase, a[0]);
        lemma_run_append(p, a.drop_first(), b);
        assert((a + b)[0] == a[0]);
        assert((a + b).drop_first() =~= a.drop_first() + b);
        let first = run(p, a.drop_first())->Some_0;
        match run(first.0, b) {
            Some((last, acts)) => {
                assert(seq![act] + (first.1 + acts) =~= (seq![act] + first.1) + acts);
            },
            None => {},
        }
    }
}

/// The loop serves a worker's tasks in the order they come out of the queue:
/// each task still in its cell is taken and run exactly once, the next one
/// only after it returned; a task cancelled through its handle is skipped;
/// and the loop ends cleanly once the queue is closed and empty.
pub proof fn law_tasks_served_in_order(runs: Seq<bool>)
    ensures
        run(LoopPhase::Waiting, tasks_events(runs) + seq![LoopEvent::QueueClosed]) == Some(
            (LoopPhase::Ended(true), tasks_actions(runs) + seq![LoopAction::Stop(true)]),
        ),
    decreases runs.len(),
{
    let closed = seq![LoopEvent::QueueClosed];
    assert(closed.drop_first() =~= Seq::<LoopEvent>::empty());
    assert(run(LoopPhase::Waiting, closed) == Some((LoopPhase::Ended(true), seq![LoopAction::Stop(true)]))) by {
        assert(run(LoopPhase::Ended(true), closed.drop_first()) == Some(
            (LoopPhase::Ended(true), Seq::<LoopAction>::empty()),
        ));
        assert(seq![LoopAction::Stop(true)] + Seq::<LoopAction>::empty() =~= seq![LoopAction::Stop(true)]);
    }
    if runs.len() == 0 {
        assert(tasks_events(runs) + closed =~= closed);
        assert(tasks_actions(runs) + seq![LoopAction::Stop(true)] =~= seq![LoopAction::Stop(true)]);
    } else {
        let head = task_events(runs[0]);
        let rest = tasks_events(runs.drop_first());
        law_tasks_served_in_order(runs.drop_first());
        lemma_run_task(runs[0]);
        lemma_run_append(LoopPhase::Waiting, head, rest + closed);
        assert(tasks_events(runs) + closed =~= head + (rest + closed));
        assert(tasks_actions(runs) + seq![LoopAction::Stop(true)] =~= task_actions(runs[0]) + (tasks_actions(
            runs.drop_first(),
        ) + seq![LoopAction::Stop(true)]));
    }
}

/// The loop's run over one task's events, from waiting back to waiting.
pub proof fn lemma_run_task(runs: bool)
    ensures
        run(LoopPhase::Waiting, task_events(runs)) == Some((LoopPhase::Waiting, task_actions(runs))),
{
    let ev = task_events(runs);
    let empty_a = Seq::<LoopAction>::empty();
    if runs {
        let e2 = ev.drop_first();
        let e3 = e2.drop_first();
        let e4 = e3.drop_first();
        assert(e4 =~= Seq::<LoopEvent>::empty());
        assert(run(LoopPhase::Waiting, e4) == Some((LoopPhase::Waiting, empty_a)));
        assert(e3 =~= seq![LoopEvent::TaskFinished(TaskRunOutcome::Returned)]);
        assert(e2 =~= seq![LoopEvent::TaskTaken(true), LoopEvent::TaskFinished(TaskRunOutcome::Returned)]);
        assert(run(LoopPhase::Running, e3) == Some((LoopPhase::Waiting, seq![LoopAction::ReceiveNext] + empty_a)));
        assert(run(LoopPhase::Taking, e2) == Some(
            (LoopPhase::Waiting, seq![LoopAction::RunTask] + (seq![LoopAction::ReceiveNext] + empty_a)),
        ));
        assert(seq![LoopAction::TakeTask] + (seq![LoopAction::RunTask] + (seq![LoopAction::ReceiveNext] + empty_a))
            =~= task_actions(runs));
    } else {
        let e2 = ev.drop_first();
        let e3 = e2.drop_first();
        assert(e3 =~= Seq::<LoopEvent>::empty());
        assert(run(LoopPhase::Waiting, e3) == Some((LoopPhase::Waiting, empty_a)));
        assert(e2 =~= seq![LoopEvent::TaskTaken(false)]);
        assert(run(LoopPhase::Taking, e2) == Some((LoopPhase::Waiting, seq![LoopAction::ReceiveNext] + empty_a)));
        assert(seq![LoopAction::TakeTask] + (seq![LoopAction::ReceiveNext] + empty_a) =~= task_actions(runs));
    }
}

} // verus!
