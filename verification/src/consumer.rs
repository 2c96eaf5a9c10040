//! The decisions of a task consumer: its main loop, the life of one task
//! run, and the list of tasks it is running.
use vstd::prelude::*;
use crate::db_task::{TaskConsumerResult, TaskSchedulerError};

verus! {

/// What the consumer's main loop does next.
#[derive(Debug, Clone, Copy, PartialEq, Eq, Structural)]
pub enum MainLoopStep {
    /// Let the consumer maintain its running tasks.
    Maintain,
    /// Try to take a concurrency token without waiting.
    AcquireToken,
    /// Look for the next pending task.
    FindTask,
    /// Mark the found task as taken by this consumer.
    OccupyTask,
    /// Run the task in the background (it keeps the token until it ends).
    RunTask,
    /// Wait a second before the next round.
    Sleep,
    /// Leave the loop.
    Stop,
}

/// What came of the step the main loop took.
#[derive(Debug, Clone, Copy, PartialEq, Eq, Structural)]
pub enum MainLoopEvent {
    Maintained,
    TokenAcquired,
    TokenUnavailable,
    TaskFound,
    NoPendingTask,
    /// The search for a task failed for another reason.
    FindFailed,
    Occupied,
    /// The task could not be taken for an expected reason (taken meanwhile).
    OccupyRejected,
    /// The task could not be taken for another reason.
    OccupyFailed,
    TaskSpawned,
    Slept,
}

/// The step after `step` when it had the outcome `event`; an event that does
/// not belong to the step leaves the loop where it is.
pub open spec fn main_loop_transition(step: MainLoopStep, event: MainLoopEvent) -> MainLoopStep {
    match (step, event) {
        (MainLoopStep::Maintain, MainLoopEvent::Maintained) => MainLoopStep::AcquireToken,
        (MainLoopStep::AcquireToken, MainLoopEvent::TokenAcquired) => MainLoopStep::FindTask,
        (MainLoopStep::AcquireToken, MainLoopEvent::TokenUnavailable) => MainLoopStep::Sleep,
        (MainLoopStep::FindTask, MainLoopEvent::TaskFound) => MainLoopStep::OccupyTask,
        (MainLoopStep::FindTask, MainLoopEvent::NoPendingTask) => MainLoopStep::Sleep,
        (MainLoopStep::FindTask, MainLoopEvent::FindFailed) => MainLoopStep::Stop,
        (MainLoopStep::OccupyTask, MainLoopEvent::Occupied) => MainLoopStep::RunTask,
        (MainLoopStep::OccupyTask, MainLoopEvent::OccupyRejected) => MainLoopStep::Sleep,
        (MainLoopStep::OccupyTask, MainLoopEvent::OccupyFailed) => MainLoopStep::Sleep,
        (MainLoopStep::RunTask, MainLoopEvent::TaskSpawned) => MainLoopStep::Sleep,
        (MainLoopStep::Sleep, MainLoopEvent::Slept) => MainLoopStep::Maintain,
        (s, _) => s,
    }
}

/// The main loop's next step.
pub fn main_loop_next(step: MainLoopStep, event: MainLoopEvent) -> (r: MainLoopStep)
    ensures
        r == main_loop_transition(step, event),
{
    match (step, event) {
        (MainLoopStep::Maintain, MainLoopEvent::Maintained) => MainLoopStep::AcquireToken,
        (MainLoopStep::AcquireToken, MainLoopEvent::TokenAcquired) => MainLoopStep::FindTask,
        (MainLoopStep::AcquireToken, MainLoopEvent::TokenUnavailable) => MainLoopStep::Sleep,
        (MainLoopStep::FindTask, MainLoopEvent::TaskFound) => MainLoopStep::OccupyTask,
        (MainLoopStep::FindTask, MainLoopEvent::NoPendingTask) => MainLoopStep::Sleep,
        (MainLoopStep::FindTask, MainLoopEvent::FindFailed) => MainLoopStep::Stop,
        (MainLoopStep::OccupyTask, MainLoopEvent::Occupied) => MainLoopStep::RunTask,
        (MainLoopStep::OccupyTask, MainLoopEvent::OccupyRejected) => MainLoopStep::Sleep,
        (MainLoopStep::OccupyTask, MainLoopEvent::OccupyFailed) => MainLoopStep::Sleep,
        (MainLoopStep::RunTask, MainLoopEvent::TaskSpawned) => MainLoopStep::Sleep,
        (MainLoopStep::Sleep, MainLoopEvent::Slept) => MainLoopStep::Maintain,
        (s, _) => s,
    }
}

/// The event of a search for a pending task.
pub fn find_event<T>(found: &Result<T, TaskSchedulerError>) -> (r: MainLoopEvent)
    ensures
        found is Ok ==> r == MainLoopEvent::TaskFound,
        found matches Err(TaskSchedulerError::NoPendingTask) ==> r == MainLoopEvent::NoPendingTask,
        found matches Err(e) && !(e is NoPendingTask) ==> r == MainLoopEvent::FindFailed,
{
    match found {
        Ok(_) => MainLoopEvent::TaskFound,
        Err(TaskSchedulerError::NoPendingTask) => MainLoopEvent::NoPendingTask,
        Err(_) => MainLoopEvent::FindFailed,
    }
}

/// The event of an attempt to take a task: being beaten to it (the task was
/// taken or no longer matches) is expected; anything else is not.
pub fn occupy_event(outcome: &Result<(), TaskSchedulerError>) -> (r: MainLoopEvent)
    ensures
        outcome is Ok ==> r == MainLoopEvent::Occupied,
        outcome matches Err(e) && (e is OccupyTaskFailed || e is NoMatchedTask) ==> r
            == MainLoopEvent::OccupyRejected,
        outcome matches Err(e) && !(e is OccupyTaskFailed || e is NoMatchedTask) ==> r
            == MainLoopEvent::OccupyFailed,
{
    match outcome {
        Ok(_) => MainLoopEvent::Occupied,
        Err(TaskSchedulerError::OccupyTaskFailed) => MainLoopEvent::OccupyRejected,
        Err(TaskSchedulerError::NoMatchedTask) => MainLoopEvent::OccupyRejected,
        Err(_) => MainLoopEvent::OccupyFailed,
    }
}

/// The loop stops only after a failed search that was not "no pending task".
pub proof fn lemma_stops_only_on_find_failure(step: MainLoopStep, event: MainLoopEvent)
    requires
        step != MainLoopStep::Stop,
        main_loop_transition(step, event) == MainLoopStep::Stop,
    ensures
        step == MainLoopStep::FindTask && event == MainLoopEvent::FindFailed,
{
}

/// A task is run only right after it was taken.
pub proof fn lemma_runs_only_occupied_tasks(step: MainLoopStep, event: MainLoopEvent)
    requires
        step != MainLoopStep::RunTask,
        main_loop_transition(step, event) == MainLoopStep::RunTask,
    ensures
        step == MainLoopStep::OccupyTask && event == MainLoopEvent::Occupied,
{
}

/// A task is searched for only with a token in hand.
pub proof fn lemma_finds_only_with_token(step: MainLoopStep, event: MainLoopEvent)
    requires
        step != MainLoopStep::FindTask,
        main_loop_transition(step, event) == MainLoopStep::FindTask,
    ensures
        step == MainLoopStep::AcquireToken && event == MainLoopEvent::TokenAcquired,
{
}

/// Every round that does not stop ends with a pause, after which the next
/// round starts with maintenance.
pub proof fn lemma_rounds_end_in_sleep(step: MainLoopStep, event: MainLoopEvent)
    requires
        main_loop_transition(step, event) == MainLoopStep::Maintain,
        step != MainLoopStep::Maintain,
    ensures
        step == MainLoopStep::Sleep && event == MainLoopEvent::Slept,
{
}

/// Once stopped, the loop stays stopped.
pub proof fn lemma_stop_is_final(event: MainLoopEvent)
    ensures
        main_loop_transition(MainLoopStep::Stop, event) == MainLoopStep::Stop,
{
}

/// The mathematical content of a `MainLoop`: the step, whether a
/// concurrency token is held, and the task in hand.
pub struct LoopView<T> {
    pub step: MainLoopStep,
    pub token_held: bool,
    pub task: Option<T>,
}

/// The state of a main loop before its first round.
pub open spec fn loop_start<T>() -> LoopView<T> {
    LoopView { step: MainLoopStep::Maintain, token_held: false, task: None }
}

/// The state after `s` had the outcome `event`; `found` is the task a
/// successful search found. A token is taken only when one is acquired; the
/// task is set only by a successful search; spawning the run hands both
/// over, and the pause at the end of a round lets both go.
pub open spec fn loop_step<T>(s: LoopView<T>, event: MainLoopEvent, found: Option<T>) -> LoopView<T> {
    let next = main_loop_transition(s.step, event);
    if s.step == MainLoopStep::AcquireToken && event == MainLoopEvent::TokenAcquired {
        LoopView { step: next, token_held: true, task: s.task }
    } else if s.step == MainLoopStep::FindTask && event == MainLoopEvent::TaskFound {
        LoopView { step: next, token_held: s.token_held, task: found }
    } else if (s.step == MainLoopStep::RunTask && event == MainLoopEvent::TaskSpawned) || (s.step
        == MainLoopStep::Sleep && event == MainLoopEvent::Slept) {
        LoopView { step: next, token_held: false, task: None }
    } else {
        LoopView { step: next, token_held: s.token_held, task: s.task }
    }
}

/// What holds in every state a main loop reaches: no token or task at the
/// start of a round, a token but no task while searching, and both a token
/// and a task while taking and running it.
pub open spec fn loop_consistent<T>(s: LoopView<T>) -> bool {
    &&& (s.step == MainLoopStep::Maintain || s.step == MainLoopStep::AcquireToken) ==> !s.token_held
        && s.task is None
    &&& s.step == MainLoopStep::FindTask ==> s.token_held && s.task is None
    &&& (s.step == MainLoopStep::OccupyTask || s.step == MainLoopStep::RunTask) ==> s.token_held
        && s.task is Some
}

/// A successful search comes with the task it found.
pub open spec fn events_carry_tasks<T>(events: Seq<(MainLoopEvent, Option<T>)>) -> bool {
    forall|i: int|
        0 <= i < events.len() && (#[trigger] events[i]).0 == MainLoopEvent::TaskFound
            ==> events[i].1 is Some
}

/// The state after the events, applied in order from the start.
pub open spec fn loop_run<T>(events: Seq<(MainLoopEvent, Option<T>)>) -> LoopView<T>
    decreases events.len(),
{
    if events.len() == 0 {
        loop_start()
    } else {
        loop_step(loop_run(events.drop_last()), events.last().0, events.last().1)
    }
}

/// Every step keeps a consistent state consistent.
pub proof fn lemma_loop_step_consistent<T>(s: LoopView<T>, event: MainLoopEvent, found: Option<T>)
    requires
        loop_consistent(s),
        event == MainLoopEvent::TaskFound ==> found is Some,
    ensures
        loop_consistent(loop_step(s, event, found)),
{
}

/// Every state a main loop reaches is consistent; in particular a task is
/// run only while a token is held.
pub proof fn lemma_loop_run_consistent<T>(events: Seq<(MainLoopEvent, Option<T>)>)
    requires
        events_carry_tasks(events),
    ensures
        loop_consistent(loop_run(events)),
    decreases events.len(),
{
    if events.len() > 0 {
        let init = events.drop_last();
        assert forall|i: int|
            0 <= i < init.len() && (#[trigger] init[i]).0 == MainLoopEvent::TaskFound implies init[i].1 is Some by {
            assert(init[i] == events[i]);
        }
        lemma_loop_run_consistent(init);
        assert(events[events.len() - 1] == events.last());
        lemma_loop_step_consistent(loop_run(init), events.last().0, events.last().1);
    }
}

/// A token is taken only by acquiring one, and spawning a run gives it up.
pub proof fn lemma_token_taken_only_by_acquire<T>(s: LoopView<T>, event: MainLoopEvent, found: Option<T>)
    ensures
        !s.token_held && loop_step(s, event, found).token_held ==> s.step
            == MainLoopStep::AcquireToken && event == MainLoopEvent::TokenAcquired,
        s.step == MainLoopStep::RunTask && event == MainLoopEvent::TaskSpawned ==> !loop_step(
            s,
            event,
            found,
        ).token_held,
{
}

/// After event `m`, every state the loop reached satisfies `p`.
pub open spec fn holds_since<T>(
    events: Seq<(MainLoopEvent, Option<T>)>,
    m: int,
    p: spec_fn(LoopView<T>) -> bool,
) -> bool {
    forall|i: int| m < i <= events.len() ==> p(#[trigger] loop_run(events.take(i)))
}

/// A property held since event `m` still holds after one more event that
/// leads to a state with the property.
proof fn lemma_holds_since_extends<T>(
    events: Seq<(MainLoopEvent, Option<T>)>,
    m: int,
    p: spec_fn(LoopView<T>) -> bool,
)
    requires
        events.len() > 0,
        0 <= m < events.len(),
        holds_since(events.drop_last(), m, p),
        p(loop_run(events)),
    ensures
        holds_since(events, m, p),
{
    let n = events.len() as int;
    let init = events.drop_last();
    assert forall|i: int| m < i <= n implies p(#[trigger] loop_run(events.take(i))) by {
        if i < n {
            assert(events.take(i) =~= init.take(i));
        } else {
            assert(events.take(i) =~= events);
        }
    }
}

/// The loop is taking or running the task `task`.
pub open spec fn with_task<T>(task: Option<T>) -> spec_fn(LoopView<T>) -> bool {
    |s: LoopView<T>|
        (s.step == MainLoopStep::OccupyTask || s.step == MainLoopStep::RunTask) && s.task == task
}

/// Event `k` was a successful search, and from then on the loop has been
/// taking or running the task that search found.
pub open spec fn holds_found_task<T>(events: Seq<(MainLoopEvent, Option<T>)>, k: int) -> bool {
    &&& 0 <= k < events.len()
    &&& events[k].0 == MainLoopEvent::TaskFound
    &&& loop_run(events.take(k)).step == MainLoopStep::FindTask
    &&& holds_since(events, k, with_task(events[k].1))
}

/// The loop is within the part of a round that follows maintenance and
/// ends with the pause: getting a token, searching, taking, running.
pub open spec fn in_round<T>() -> spec_fn(LoopView<T>) -> bool {
    |s: LoopView<T>|
        s.step == MainLoopStep::AcquireToken || s.step == MainLoopStep::FindTask || s.step
            == MainLoopStep::OccupyTask || s.step == MainLoopStep::RunTask
}

/// Event `m` ended the maintenance of a round, and the loop has not left
/// that round since.
pub open spec fn round_began_with_maintenance<T>(events: Seq<(MainLoopEvent, Option<T>)>, m: int) -> bool {
    &&& 0 <= m < events.len()
    &&& events[m].0 == MainLoopEvent::Maintained
    &&& loop_run(events.take(m)).step == MainLoopStep::Maintain
    &&& holds_since(events, m, in_round())
}

/// A search, a take or a run belongs to a round that began with the
/// consumer's maintenance (where the app also builds the round's filter).
pub proof fn lemma_rounds_begin_with_maintenance<T>(events: Seq<(MainLoopEvent, Option<T>)>)
    requires
        in_round::<T>()(loop_run(events)),
    ensures
        exists|m: int| #[trigger] round_began_with_maintenance(events, m),
    decreases events.len(),
{
    let n = events.len() as int;
    if n == 0 {
        assert(loop_run(events).step == MainLoopStep::Maintain);
    } else {
        let init = events.drop_last();
        let s = loop_run(init);
        assert(events.take(n - 1) =~= init);
        if in_round::<T>()(s) {
            lemma_rounds_begin_with_maintenance(init);
            let m = choose|m: int| #[trigger] round_began_with_maintenance(init, m);
            assert(init[m] == events[m]);
            assert(events.take(m) =~= init.take(m));
            lemma_holds_since_extends(events, m, in_round());
            assert(round_began_with_maintenance(events, m));
        } else {
            assert(events[n - 1] == events.last());
            assert(holds_since(events, n - 1, in_round())) by {
                assert forall|i: int| n - 1 < i <= n implies in_round::<T>()(
                    #[trigger] loop_run(events.take(i)),
                ) by {
                    assert(events.take(i) =~= events);
                }
            }
            assert(round_began_with_maintenance(events, n - 1));
        }
    }
}

/// The task a main loop runs is the one its search found in the same round,
/// and it is run only after taking it succeeded: the loop has stayed with
/// that task since the search, and its last step before running was a
/// successful take.
pub proof fn lemma_runs_the_task_found_and_taken<T>(events: Seq<(MainLoopEvent, Option<T>)>)
    requires
        loop_run(events).step == MainLoopStep::OccupyTask || loop_run(events).step
            == MainLoopStep::RunTask,
    ensures
        exists|k: int| #[trigger] holds_found_task(events, k),
        loop_run(events).step == MainLoopStep::RunTask ==> exists|j: int|
            0 <= j < events.len() && #[trigger] events[j].0 == MainLoopEvent::Occupied && loop_run(
                events.take(j),
            ).step == MainLoopStep::OccupyTask && (exists|k: int| k < j && holds_found_task(events, k)),
    decreases events.len(),
{
    let n = events.len() as int;
    if n == 0 {
        assert(loop_run(events).step == MainLoopStep::Maintain);
    } else {
        let init = events.drop_last();
        let s = loop_run(init);
        let e = events.last();
        assert(events.take(n - 1) =~= init);
        assert(events[n - 1] == e);
        if s.step == MainLoopStep::OccupyTask || s.step == MainLoopStep::RunTask {
            lemma_runs_the_task_found_and_taken(init);
            let k = choose|k: int| #[trigger] holds_found_task(init, k);
            assert(init.take(n - 1) =~= init);
            assert(with_task(init[k].1)(loop_run(init.take(n - 1))));
            assert(s.task == loop_run(events).task);
            assert(init[k] == events[k]);
            assert(events.take(k) =~= init.take(k));
            assert(with_task(events[k].1)(loop_run(events)));
            lemma_holds_since_extends(events, k, with_task(events[k].1));
            assert(holds_found_task(events, k));
            if loop_run(events).step == MainLoopStep::RunTask && s.step == MainLoopStep::RunTask {
                let j = choose|j: int|
                    0 <= j < init.len() && #[trigger] init[j].0 == MainLoopEvent::Occupied
                        && loop_run(init.take(j)).step == MainLoopStep::OccupyTask && (exists|k: int|
                        k < j && holds_found_task(init, k));
                let k2 = choose|k2: int| k2 < j && holds_found_task(init, k2);
                assert(with_task(init[k2].1)(loop_run(init.take(n - 1))));
                assert(init[j] == events[j]);
                assert(events.take(j) =~= init.take(j));
                assert(init[k2] == events[k2]);
                assert(events.take(k2) =~= init.take(k2));
                assert(with_task(events[k2].1)(loop_run(events)));
                lemma_holds_since_extends(events, k2, with_task(events[k2].1));
                assert(holds_found_task(events, k2));
            }
        } else {
            assert(s.step == MainLoopStep::FindTask && e.0 == MainLoopEvent::TaskFound);
            assert(holds_since(events, n - 1, with_task(events[n - 1].1))) by {
                assert forall|i: int| n - 1 < i <= n implies with_task(events[n - 1].1)(
                    #[trigger] loop_run(events.take(i)),
                ) by {
                    assert(events.take(i) =~= events);
                }
            }
            assert(holds_found_task(events, n - 1));
        }
    }
}

/// A main loop: its step, whether it holds a concurrency token, and the task
/// it has found and is taking or about to run.
pub struct MainLoop<T> {
    step: MainLoopStep,
    token_held: bool,
    task: Option<T>,
}

impl<T> View for MainLoop<T> {
    type V = LoopView<T>;

    closed spec fn view(&self) -> LoopView<T> {
        LoopView { step: self.step, token_held: self.token_held, task: self.task }
    }
}

impl<T> MainLoop<T> {
    #[verifier::type_invariant]
    closed spec fn consistent(&self) -> bool {
        loop_consistent(self@)
    }

    /// A loop about to start its first round.
    pub fn new() -> (r: Self)
        ensures
            r@ == loop_start::<T>(),
    {
        MainLoop { step: MainLoopStep::Maintain, token_held: false, task: None }
    }

    /// What the loop does next.
    pub fn step(&self) -> (r: MainLoopStep)
        ensures
            r == self@.step,
    {
        self.step
    }

    /// Whether the loop holds a concurrency token.
    pub fn holds_token(&self) -> (r: bool)
        ensures
            r == self@.token_held,
    {
        self.token_held
    }

    /// Takes the outcome of the current step; `found` is the task a
    /// successful search found.
    pub fn advance(&mut self, event: MainLoopEvent, found: Option<T>)
        requires
            event == MainLoopEvent::TaskFound ==> found is Some,
        ensures
            final(self)@ == loop_step(old(self)@, event, found),
    {
        proof {
            use_type_invariant(&*self);
        }
        let mut whole = MainLoop::new();
        std::mem::swap(&mut whole, self);
        let MainLoop { step, token_held, task: held } = whole;
        let next = main_loop_next(step, event);
        let (token_held, task) = if step == MainLoopStep::AcquireToken && event
            == MainLoopEvent::TokenAcquired {
            (true, held)
        } else if step == MainLoopStep::FindTask && event == MainLoopEvent::TaskFound {
            (token_held, found)
        } else if (step == MainLoopStep::RunTask && event == MainLoopEvent::TaskSpawned) || (step
            == MainLoopStep::Sleep && event == MainLoopEvent::Slept) {
            (false, None)
        } else {
            (token_held, held)
        };
        proof {
            lemma_loop_step_consistent(old(self)@, event, found);
        }
        *self = MainLoop { step: next, token_held, task };
    }

    /// The task the loop is taking or about to run.
    pub fn current_task(&self) -> (r: &T)
        requires
            self@.step == MainLoopStep::OccupyTask || self@.step == MainLoopStep::RunTask,
        ensures
            self@.task == Some(*r),
    {
        proof {
            use_type_invariant(self);
        }
        self.task.as_ref().unwrap()
    }

    /// Hands the task over to be run, with the token, and moves on.
    pub fn spawn_task(&mut self) -> (r: T)
        requires
            old(self)@.step == MainLoopStep::RunTask,
        ensures
            old(self)@.task == Some(r),
            final(self)@ == loop_step(old(self)@, MainLoopEvent::TaskSpawned, None),
    {
        proof {
            use_type_invariant(&*self);
            lemma_loop_step_consistent(old(self)@, MainLoopEvent::TaskSpawned, None);
        }
        let mut whole = MainLoop::new();
        std::mem::swap(&mut whole, self);
        let MainLoop { task: held, .. } = whole;
        let task = held.unwrap();
        *self = MainLoop { step: MainLoopStep::Sleep, token_held: false, task: None };
        task
    }
}

/// The stages of running one task.
#[derive(Debug, PartialEq, Eq, Structural)]
pub enum RunTaskStep {
    /// Put the task in the consumer's list of running tasks.
    AddRunning,
    /// Take the task out of that list again.
    RemoveRunning,
    /// Let the consumer process the task.
    Consume,
    /// Mark the task completed in the store.
    MarkCompleted,
    /// Mark the task cancelled in the store.
    MarkCancelled,
    /// The task was already running.
    AlreadyRunning,
    /// The task was missing from the running list.
    NotRunning,
    /// The consumer reported a failure; the task is left to be retried.
    ConsumerFailed,
}

/// What came of a stage of running a task.
pub enum RunTaskEvent {
    Added(bool),
    Removed(bool),
    Consumed(TaskConsumerResult),
}

/// The stage after `step` when it had the outcome `event`. The task is
/// consumed only once it has been added to and removed from the running list.
pub open spec fn run_task_transition(step: RunTaskStep, event: RunTaskEvent) -> RunTaskStep {
    match (step, event) {
        (RunTaskStep::AddRunning, RunTaskEvent::Added(true)) => RunTaskStep::RemoveRunning,
        (RunTaskStep::AddRunning, RunTaskEvent::Added(false)) => RunTaskStep::AlreadyRunning,
        (RunTaskStep::RemoveRunning, RunTaskEvent::Removed(true)) => RunTaskStep::Consume,
        (RunTaskStep::RemoveRunning, RunTaskEvent::Removed(false)) => RunTaskStep::NotRunning,
        (RunTaskStep::Consume, RunTaskEvent::Consumed(TaskConsumerResult::Completed)) => RunTaskStep::MarkCompleted,
        (RunTaskStep::Consume, RunTaskEvent::Consumed(TaskConsumerResult::Cancelled)) => RunTaskStep::MarkCancelled,
        (RunTaskStep::Consume, RunTaskEvent::Consumed(TaskConsumerResult::Failed)) => RunTaskStep::ConsumerFailed,
        (s, _) => s,
    }
}

/// The next stage of running a task.
pub fn run_task_next(step: RunTaskStep, event: RunTaskEvent) -> (r: RunTaskStep)
    ensures
        r == run_task_transition(step, event),
{
    match (step, event) {
        (RunTaskStep::AddRunning, RunTaskEvent::Added(true)) => RunTaskStep::RemoveRunning,
        (RunTaskStep::AddRunning, RunTaskEvent::Added(false)) => RunTaskStep::AlreadyRunning,
        (RunTaskStep::RemoveRunning, RunTaskEvent::Removed(true)) => RunTaskStep::Consume,
        (RunTaskStep::RemoveRunning, RunTaskEvent::Removed(false)) => RunTaskStep::NotRunning,
        (RunTaskStep::Consume, RunTaskEvent::Consumed(TaskConsumerResult::Completed)) => RunTaskStep::MarkCompleted,
        (RunTaskStep::Consume, RunTaskEvent::Consumed(TaskConsumerResult::Cancelled)) => RunTaskStep::MarkCancelled,
        (RunTaskStep::Consume, RunTaskEvent::Consumed(TaskConsumerResult::Failed)) => RunTaskStep::ConsumerFailed,
        (s, _) => s,
    }
}

/// The error a run ends with when it stops before marking the task.
pub fn run_task_error(step: &RunTaskStep) -> (r: Option<TaskSchedulerError>)
    ensures
        (*step == RunTaskStep::AlreadyRunning || *step == RunTaskStep::NotRunning) <==> r matches Some(
            TaskSchedulerError::MaintainerError,
        ),
        *step == RunTaskStep::ConsumerFailed <==> r matches Some(
            TaskSchedulerError::TaskFailedError,
        ),
        r is None <==> !(*step == RunTaskStep::AlreadyRunning || *step == RunTaskStep::NotRunning
            || *step == RunTaskStep::ConsumerFailed),
{
    match step {
        RunTaskStep::AlreadyRunning => Some(TaskSchedulerError::MaintainerError),
        RunTaskStep::NotRunning => Some(TaskSchedulerError::MaintainerError),
        RunTaskStep::ConsumerFailed => Some(TaskSchedulerError::TaskFailedError),
        _ => None,
    }
}

/// A task is consumed only after it was both added to and removed from the
/// running list.
pub proof fn lemma_consumes_only_after_bookkeeping(step: RunTaskStep, event: RunTaskEvent)
    requires
        step != RunTaskStep::Consume,
        run_task_transition(step, event) == RunTaskStep::Consume,
    ensures
        step == RunTaskStep::RemoveRunning && event == RunTaskEvent::Removed(true),
{
}

/// The tasks a consumer is running, in the order kept by its list.
pub struct RunningTasks<T> {
    pub tasks: Vec<T>,
}

/// The index of the first `true` flag, if any.
pub open spec fn first_flagged(flags: Seq<bool>) -> Option<int> {
    if exists|i: int| 0 <= i < flags.len() && flags[i] {
        Some(choose|i: int| 0 <= i < flags.len() && flags[i] && forall|j: int| 0 <= j < i ==> !flags[j])
    } else {
        None
    }
}

proof fn lemma_least_flag_exists(flags: Seq<bool>, i: int)
    requires
        0 <= i < flags.len(),
        flags[i],
    ensures
        exists|k: int| 0 <= k < flags.len() && flags[k] && forall|j: int| 0 <= j < k ==> !flags[j],
    decreases i,
{
    if exists|j: int| 0 <= j < i && flags[j] {
        let j = choose|j: int| 0 <= j < i && flags[j];
        lemma_least_flag_exists(flags, j);
    } else {
        assert(0 <= i < flags.len() && flags[i] && forall|j: int| 0 <= j < i ==> !flags[j]);
    }
}

/// `first_flagged` finds the first `true` flag, and finds none only when no
/// flag is set.
pub proof fn lemma_first_flagged_is_first(flags: Seq<bool>)
    ensures
        match first_flagged(flags) {
            Some(i) => 0 <= i < flags.len() && flags[i] && forall|j: int| 0 <= j < i ==> !flags[j],
            None => forall|j: int| 0 <= j < flags.len() ==> !flags[j],
        },
{
    if exists|i: int| 0 <= i < flags.len() && flags[i] {
        let i = choose|i: int| 0 <= i < flags.len() && flags[i];
        lemma_least_flag_exists(flags, i);
    }
}

/// The list after the element at `i` is taken out and the last element moved
/// into its place.
pub open spec fn swap_removed<T>(s: Seq<T>, i: int) -> Seq<T> {
    s.update(i, s.last()).drop_last()
}

/// Taking a task out by `swap_removed` loses exactly one occurrence of that
/// task and keeps every other task.
pub proof fn lemma_remove_keeps_other_tasks<T>(s: Seq<T>, i: int)
    requires
        0 <= i < s.len(),
    ensures
        swap_removed(s, i).len() == s.len() - 1,
        swap_removed(s, i).to_multiset() == s.to_multiset().remove(s[i]),
{
    broadcast use vstd::multiset::group_multiset_axioms;

    let n = s.len() as int;
    let t = s.update(i, s.last());
    assert(t[n - 1] == s.last());
    assert(t.drop_last() =~= t.remove(n - 1));
    vstd::seq_lib::to_multiset_remove(t, n - 1);
    vstd::seq_lib::to_multiset_update(s, i, s.last());
    vstd::seq_lib::to_multiset_contains(s, s[i]);
    assert(s.contains(s[i]));
    assert(swap_removed(s, i).to_multiset() =~= s.to_multiset().remove(s[i]));
}

/// Adding a task and then removing it, where no task already in the list
/// matches it, gives back the list as it was.
pub proof fn lemma_add_then_remove_restores<T>(s: Seq<T>, task: T, is_target: Seq<bool>)
    requires
        is_target.len() == s.len() + 1,
        is_target[s.len() as int],
        forall|j: int| 0 <= j < s.len() ==> !is_target[j],
    ensures
        first_flagged(is_target) == Some(s.len() as int),
        swap_removed(s.push(task), s.len() as int) == s,
{
    let n = s.len() as int;
    assert(0 <= n < is_target.len() && is_target[n] && forall|j: int| 0 <= j < n ==> !is_target[j]);
    let k = choose|k: int|
        0 <= k < is_target.len() && is_target[k] && forall|j: int| 0 <= j < k ==> !is_target[j];
    if k < n {
        assert(!is_target[k]);
    } else if k > n {
        assert(!is_target[n]);
    }
    assert(swap_removed(s.push(task), n) =~= s);
}

impl<T> RunningTasks<T> {
    /// An empty list.
    pub fn new() -> (r: Self)
        ensures
            r.tasks@ == Seq::<T>::empty(),
    {
        RunningTasks { tasks: Vec::new() }
    }

    /// Adds a task; always succeeds.
    pub fn add_running_task(&mut self, task: T) -> (r: bool)
        ensures
            r,
            final(self).tasks@ == old(self).tasks@.push(task),
    {
        self.tasks.push(task);
        true
    }

    /// Removes the first task whose flag in `is_target` is set (the flags say,
    /// position by position, whether a task is the one to remove), moving the
    /// last task into its place. Returns whether one was removed.
    pub fn remove_running_task(&mut self, is_target: &Vec<bool>) -> (r: bool)
        requires
            is_target@.len() == old(self).tasks@.len(),
        ensures
            r == first_flagged(is_target@) is Some,
            match first_flagged(is_target@) {
                Some(i) => final(self).tasks@ == swap_removed(old(self).tasks@, i),
                None => final(self).tasks@ == old(self).tasks@,
            },
    {
        let len = self.tasks.len();
        let mut i: usize = 0;
        while i < len
            invariant
                i <= len,
                len == self.tasks@.len(),
                len == is_target@.len(),
                self.tasks@ == old(self).tasks@,
                forall|j: int| 0 <= j < i ==> !is_target@[j],
            decreases len - i,
        {
            if is_target[i] {
                proof {
                    let k = choose|k: int|
                        0 <= k < is_target@.len() && is_target@[k] && forall|j: int|
                            0 <= j < k ==> !is_target@[j];
                    assert(0 <= i < is_target@.len() && is_target@[i as int] && forall|j: int|
                        0 <= j < i ==> !is_target@[j]);
                    if k < i {
                        assert(!is_target@[k]);
                    } else if k > i {
                        assert(!is_target@[i as int]);
                    }
                }
                self.tasks.swap_remove(i);
                return true;
            }
            i = i + 1;
        }
        false
    }
}

} // verus!
