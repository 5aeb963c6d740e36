//! The stepping runtime: a queue of tasks, a flag that says whether any task
//! may be able to make progress, and one scheduling step over the queue, run as
//! a state machine (`StepScan`) whose caller polls the task that each state
//! names.

use std::collections::VecDeque;
use vstd::prelude::*;

verus! {

/// What one scheduling step of the runtime did.
#[derive(Clone, Copy, Debug, PartialEq, Eq, Structural)]
pub enum StepResult {
    /// Nothing was marked as able to make progress, so no task was polled.
    NoActionTake,
    /// Every task was polled once and none of them finished.
    PolledSome,
    /// A task finished and was taken out of the queue.
    CompletedTask,
    /// The time budget of a timed step ran out.
    Timeout,
}

/// What polling one task reported.
#[derive(Clone, Copy, Debug, PartialEq, Eq, Structural)]
pub enum TaskState {
    /// The task did not finish (it is waiting, or was not ready to be polled).
    NotReady,
    /// The task's future was held by someone else, so it was not polled.
    Locked,
    /// The task finished.
    Complete,
}

/// Abstract state of a runtime: the queued tasks in order and the dirty flag.
pub ghost struct RuntimeView<T> {
    pub tasks: Seq<T>,
    pub dirty: bool,
}

/// A queue of tasks that are polled in order, together with a dirty flag that is
/// raised whenever a task is spawned or woken and lowered after a full pass over
/// the queue in which no task finished.
pub struct Runtime<T> {
    tasks: VecDeque<T>,
    dirty: bool,
}

impl<T> View for Runtime<T> {
    type V = RuntimeView<T>;

    closed spec fn view(&self) -> RuntimeView<T> {
        RuntimeView { tasks: self.tasks@, dirty: self.dirty }
    }
}

impl<T> Runtime<T> {
    /// An empty runtime with the dirty flag down.
    pub fn new() -> (r: Self)
        ensures
            r@.tasks == Seq::<T>::empty(),
            !r@.dirty,
    {
        Runtime { tasks: VecDeque::new(), dirty: false }
    }

    /// Appends a task at the back of the queue and raises the dirty flag, so
    /// that the next step polls it.
    pub fn spawn(&mut self, task: T)
        ensures
            final(self)@ == spawned(old(self)@, task),
    {
        self.tasks.push_back(task);
        self.dirty = true;
    }

    /// Appends a task at the back of the queue, leaving the dirty flag as it is
    /// (the task is polled once something marks the runtime dirty).
    pub fn push_back(&mut self, task: T)
        ensures
            final(self)@ == (RuntimeView { tasks: old(self)@.tasks.push(task), ..old(self)@ }),
    {
        self.tasks.push_back(task);
    }

    /// Raises the dirty flag (a task was woken).
    pub fn mark_dirty(&mut self)
        ensures
            final(self)@.tasks == old(self)@.tasks,
            final(self)@.dirty,
    {
        self.dirty = true;
    }

    /// Whether the dirty flag is raised.
    pub fn is_dirty(&self) -> (b: bool)
        ensures
            b == self@.dirty,
    {
        self.dirty
    }

    /// Number of queued tasks.
    pub fn len(&self) -> (n: usize)
        ensures
            n == self@.tasks.len(),
    {
        self.tasks.len()
    }

    /// The task at position `i` of the queue (counted from the front), if any.
    pub fn get(&self, i: usize) -> (t: Option<&T>)
        ensures
            i < self@.tasks.len() ==> t == Some(&self@.tasks[i as int]),
            i >= self@.tasks.len() ==> t is None,
    {
        if i < self.tasks.len() {
            Some(&self.tasks[i])
        } else {
            None
        }
    }
}

/// The runtime `pre` after spawning `task`: the task is queued at the back and
/// the dirty flag is up.
pub open spec fn spawned<T>(pre: RuntimeView<T>, task: T) -> RuntimeView<T> {
    RuntimeView { tasks: pre.tasks.push(task), dirty: true }
}

/// Progress of one scheduling step over the queue.
///
/// The state says what the caller does next: poll the task at `index` (counted
/// from the front of the queue) once and hand in what the poll reported, or
/// return the finished result.
#[derive(Clone, Copy, Debug, PartialEq, Eq, Structural)]
pub enum StepScan {
    /// Poll the task at `index`.
    AwaitPoll { index: usize },
    /// The step is over with this result.
    Finished(StepResult),
}

impl StepScan {
    /// The first state of a step of `pre`, and the runtime after it: with the
    /// dirty flag down nothing is polled; with it up the task at the front is
    /// polled first, and with an empty queue the pass is over at once, which
    /// lowers the flag.
    pub open spec fn start_spec<T>(pre: RuntimeView<T>) -> (StepScan, RuntimeView<T>) {
        if !pre.dirty {
            (StepScan::Finished(StepResult::NoActionTake), pre)
        } else if pre.tasks.len() == 0 {
            (StepScan::Finished(StepResult::PolledSome), RuntimeView { dirty: false, ..pre })
        } else {
            (StepScan::AwaitPoll { index: 0 }, pre)
        }
    }

    /// The state that follows `self` when the polled task reported `state`, and
    /// the runtime after it: a finished task leaves the queue and ends the step;
    /// otherwise the next task is polled, and past the last one the pass is over
    /// and the flag goes down.
    pub open spec fn next_spec<T>(self, pre: RuntimeView<T>, state: TaskState) -> (
        StepScan,
        RuntimeView<T>,
    ) {
        match self {
            StepScan::AwaitPoll { index } => {
                if state == TaskState::Complete {
                    (
                        StepScan::Finished(StepResult::CompletedTask),
                        RuntimeView { tasks: pre.tasks.remove(index as int), ..pre },
                    )
                } else if index + 1 < pre.tasks.len() {
                    (StepScan::AwaitPoll { index: (index + 1) as usize }, pre)
                } else {
                    (StepScan::Finished(StepResult::PolledSome), RuntimeView { dirty: false, ..pre })
                }
            },
            StepScan::Finished(_) => (self, pre),
        }
    }

    /// The state of a step of `pre`, and the runtime, after its first `n` polls,
    /// the `j`-th of which reported `reports[j]`.
    pub open spec fn after_polls<T>(pre: RuntimeView<T>, reports: Seq<TaskState>, n: nat) -> (
        StepScan,
        RuntimeView<T>,
    )
        decreases n,
    {
        if n == 0 {
            StepScan::start_spec(pre)
        } else {
            let (s, rt) = StepScan::after_polls(pre, reports, (n - 1) as nat);
            s.next_spec(rt, reports[n - 1])
        }
    }

    /// Begins a scheduling step of `rt`.
    pub fn start<T>(rt: &mut Runtime<T>) -> (s: StepScan)
        ensures
            (s, final(rt)@) == StepScan::start_spec(old(rt)@),
            s matches StepScan::AwaitPoll { index } ==> index < final(rt)@.tasks.len(),
    {
        if !rt.dirty {
            StepScan::Finished(StepResult::NoActionTake)
        } else if rt.tasks.len() == 0 {
            rt.dirty = false;
            StepScan::Finished(StepResult::PolledSome)
        } else {
            StepScan::AwaitPoll { index: 0 }
        }
    }

    /// Advances a step of `rt` by what polling the task at the current index
    /// reported.
    pub fn next<T>(self, rt: &mut Runtime<T>, state: TaskState) -> (s: StepScan)
        requires
            self matches StepScan::AwaitPoll { index } && index < old(rt)@.tasks.len(),
        ensures
            (s, final(rt)@) == self.next_spec(old(rt)@, state),
            s matches StepScan::AwaitPoll { index } ==> index < final(rt)@.tasks.len(),
    {
        match self {
            StepScan::AwaitPoll { index } => {
                if state == TaskState::Complete {
                    let _ = rt.tasks.remove(index);
                    StepScan::Finished(StepResult::CompletedTask)
                } else if index < rt.tasks.len() - 1 {
                    StepScan::AwaitPoll { index: index + 1 }
                } else {
                    rt.dirty = false;
                    StepScan::Finished(StepResult::PolledSome)
                }
            },
            StepScan::Finished(_) => self,
        }
    }
}

/// A step polls each task once, front to back, and none after the first that
/// finishes. On a runtime with the dirty flag up: while no task has finished,
/// the `j`-th poll is of the task at `j` and the runtime is unchanged; when the
/// task at `k` is the first to finish, the step ends right after its poll with
/// `CompletedTask`, that task out of the queue, the rest in order and the flag
/// still up; when none of the tasks finishes, the step ends after the last
/// one's poll with `PolledSome`, the queue unchanged and the flag down. With the
/// flag down the step polls nothing.
pub proof fn lemma_step_polls_each_task_once_in_order<T>(
    pre: RuntimeView<T>,
    reports: Seq<TaskState>,
    n: nat,
)
    requires
        n <= reports.len(),
        pre.tasks.len() <= usize::MAX,
    ensures
        !pre.dirty ==> StepScan::after_polls(pre, reports, n) == (
            StepScan::Finished(StepResult::NoActionTake),
            pre,
        ),
        pre.dirty && n < pre.tasks.len() && (forall|j: int|
            0 <= j < n ==> reports[j] != TaskState::Complete) ==> StepScan::after_polls(
            pre,
            reports,
            n,
        ) == (StepScan::AwaitPoll { index: n as usize }, pre),
        pre.dirty && 0 < n <= pre.tasks.len() && reports[n - 1] == TaskState::Complete && (
        forall|j: int| 0 <= j < n - 1 ==> reports[j] != TaskState::Complete)
            ==> StepScan::after_polls(pre, reports, n) == (
            StepScan::Finished(StepResult::CompletedTask),
            RuntimeView { tasks: pre.tasks.remove(n - 1), dirty: true },
        ),
        pre.dirty && n == pre.tasks.len() && (forall|j: int|
            0 <= j < n ==> reports[j] != TaskState::Complete) ==> StepScan::after_polls(
            pre,
            reports,
            n,
        ) == (StepScan::Finished(StepResult::PolledSome), RuntimeView { dirty: false, ..pre }),
    decreases n,
{
    if n > 0 {
        lemma_step_polls_each_task_once_in_order(pre, reports, (n - 1) as nat);
    }
}

/// Once a step has ended, further reports change nothing: no task is polled
/// after a step finishes.
pub proof fn lemma_finished_step_stays_finished<T>(
    pre: RuntimeView<T>,
    reports: Seq<TaskState>,
    n: nat,
    m: nat,
)
    requires
        n <= m,
        StepScan::after_polls(pre, reports, n).0 is Finished,
    ensures
        StepScan::after_polls(pre, reports, m) == StepScan::after_polls(pre, reports, n),
    decreases m - n,
{
    if n < m {
        lemma_finished_step_stays_finished(pre, reports, n, (m - 1) as nat);
    }
}

/// A step right after a spawn always polls, and it polls the spawned task
/// unless a task queued before it finishes first.
pub proof fn lemma_spawned_task_is_polled<T>(pre: RuntimeView<T>, task: T, reports: Seq<TaskState>)
    requires
        pre.tasks.len() <= reports.len(),
        pre.tasks.len() < usize::MAX,
        forall|j: int| 0 <= j < pre.tasks.len() ==> reports[j] != TaskState::Complete,
    ensures
        StepScan::start_spec(spawned(pre, task)).0 is AwaitPoll,
        ({
            let post = spawned(pre, task);
            let n = pre.tasks.len();
            &&& StepScan::after_polls(post, reports, n) == (
                StepScan::AwaitPoll { index: n as usize },
                post,
            )
            &&& post.tasks[n as int] == task
        }),
{
    lemma_step_polls_each_task_once_in_order(spawned(pre, task), reports, pre.tasks.len());
}

/// Once a full pass over the queue finishes no task, the next step polls
/// nothing and changes nothing: the runtime stays idle until a task is spawned
/// or it is marked dirty.
pub proof fn lemma_idle_after_full_pass<T>(pre: RuntimeView<T>, s: StepScan, state: TaskState)
    requires
        s is AwaitPoll,
        s.next_spec(pre, state).0 == StepScan::Finished(StepResult::PolledSome),
    ensures
        ({
            let post = s.next_spec(pre, state).1;
            StepScan::start_spec(post) == (StepScan::Finished(StepResult::NoActionTake), post)
        }),
{
}

/// A step never adds a task and takes out at most one, the one it reports
/// finished; every task left in the queue was in it before.
pub proof fn lemma_step_takes_out_at_most_one<T>(
    pre: RuntimeView<T>,
    s: StepScan,
    state: TaskState,
)
    requires
        s matches StepScan::AwaitPoll { index } && index < pre.tasks.len(),
    ensures
        ({
            let (t, post) = s.next_spec(pre, state);
            &&& t == StepScan::Finished(StepResult::CompletedTask) ==> post.tasks.len() + 1
                == pre.tasks.len()
            &&& t != StepScan::Finished(StepResult::CompletedTask) ==> post.tasks == pre.tasks
            &&& forall|x: T| post.tasks.contains(x) ==> pre.tasks.contains(x)
        }),
{
    let (t, post) = s.next_spec(pre, state);
    if t == StepScan::Finished(StepResult::CompletedTask) {
        let i = s->index as int;
        assert forall|x: T| post.tasks.contains(x) implies pre.tasks.contains(x) by {
            let k = choose|k: int| 0 <= k < post.tasks.len() && post.tasks[k] == x;
            if k < i {
                assert(pre.tasks[k] == x);
            } else {
                assert(pre.tasks[k + 1] == x);
            }
        }
    }
}

/// Progress of a timed step: keep stepping while the time budget lasts.
///
/// The state says what the caller does next: read the clock (the time elapsed
/// since the timed step began) and hand it in, run one step and hand in its
/// result, or return the finished result.
#[derive(Clone, Copy, Debug, PartialEq, Eq, Structural)]
pub enum StepTimer {
    /// Read the clock. `ended` is set once the budget was seen exhausted: the
    /// reading that follows decides between `Timeout` and `PolledSome`.
    AwaitClock { budget: u128, ended: bool },
    /// Run one step.
    AwaitStep { budget: u128 },
    /// The timed step is over with this result.
    Finished(StepResult),
}

/// What the caller hands to a timed step.
#[derive(Clone, Copy, Debug, PartialEq, Eq, Structural)]
pub enum TimerEvent {
    /// Nanoseconds elapsed since the timed step began.
    Elapsed(u128),
    /// The result of one step.
    Stepped(StepResult),
}

impl StepTimer {
    /// Whether `event` is what this state waits for: a clock reading in
    /// `AwaitClock`, the result of a step (which never reports a timeout) in
    /// `AwaitStep`, nothing once finished.
    pub open spec fn accepts(self, event: TimerEvent) -> bool {
        match self {
            StepTimer::AwaitClock { .. } => event is Elapsed,
            StepTimer::AwaitStep { .. } => event matches TimerEvent::Stepped(r)
                && r != StepResult::Timeout,
            StepTimer::Finished(_) => false,
        }
    }

    /// The state that follows `self` on `event`.
    pub open spec fn next_spec(self, event: TimerEvent) -> StepTimer {
        match (self, event) {
            (StepTimer::AwaitClock { budget, ended }, TimerEvent::Elapsed(elapsed)) => {
                if !ended {
                    if elapsed < budget {
                        StepTimer::AwaitStep { budget }
                    } else {
                        StepTimer::AwaitClock { budget, ended: true }
                    }
                } else if elapsed < budget {
                    StepTimer::Finished(StepResult::Timeout)
                } else {
                    StepTimer::Finished(StepResult::PolledSome)
                }
            },
            (StepTimer::AwaitStep { budget }, TimerEvent::Stepped(r)) => {
                if r == StepResult::PolledSome {
                    StepTimer::AwaitClock { budget, ended: false }
                } else {
                    StepTimer::Finished(r)
                }
            },
            _ => self,
        }
    }

    /// A timed step with a budget of `budget` nanoseconds; it begins by reading
    /// the clock.
    pub fn start(budget: u128) -> (t: StepTimer)
        ensures
            t == (StepTimer::AwaitClock { budget, ended: false }),
    {
        StepTimer::AwaitClock { budget, ended: false }
    }

    /// Advances the timed step by one event.
    pub fn next(self, event: TimerEvent) -> (t: StepTimer)
        requires
            self.accepts(event),
        ensures
            t == self.next_spec(event),
    {
        match (self, event) {
            (StepTimer::AwaitClock { budget, ended }, TimerEvent::Elapsed(elapsed)) => {
                if !ended {
                    if elapsed < budget {
                        StepTimer::AwaitStep { budget }
                    } else {
                        StepTimer::AwaitClock { budget, ended: true }
                    }
                } else if elapsed < budget {
                    StepTimer::Finished(StepResult::Timeout)
                } else {
                    StepTimer::Finished(StepResult::PolledSome)
                }
            },
            (StepTimer::AwaitStep { budget }, TimerEvent::Stepped(r)) => {
                if r == StepResult::PolledSome {
                    StepTimer::AwaitClock { budget, ended: false }
                } else {
                    StepTimer::Finished(r)
                }
            },
            _ => self,
        }
    }
}

/// With a clock that never goes back, a timed step never reports `Timeout`:
/// once a reading shows the budget spent, every later reading does too, so the
/// step ends with `PolledSome`.
pub proof fn lemma_monotonic_clock_never_times_out(budget: u128, first: u128, second: u128)
    requires
        first <= second,
    ensures
        ({
            let s = (StepTimer::AwaitClock { budget, ended: false }).next_spec(
                TimerEvent::Elapsed(first),
            );
            s is AwaitClock ==> s.next_spec(TimerEvent::Elapsed(second)) == StepTimer::Finished(
                StepResult::PolledSome,
            )
        }),
{
}

/// A timed step ends with `Timeout` only when the clock, read after it saw the
/// budget spent, shows time left again; it ends with any other result only as
/// that result of a step, or as `PolledSome` after the budget was spent.
pub proof fn lemma_timer_outcomes(s: StepTimer, event: TimerEvent, r: StepResult)
    requires
        s.accepts(event),
        s.next_spec(event) == StepTimer::Finished(r),
    ensures
        r == StepResult::Timeout ==> (s matches StepTimer::AwaitClock { budget, ended }
            && ended && (event matches TimerEvent::Elapsed(e) && e < budget)),
        r == StepResult::PolledSome ==> (s matches StepTimer::AwaitClock { budget, ended }
            && ended && (event matches TimerEvent::Elapsed(e) && e >= budget)),
        (r == StepResult::NoActionTake || r == StepResult::CompletedTask) ==> s is AwaitStep
            && event == TimerEvent::Stepped(r),
{
}

/// Spawning keeps the queue as it was and adds the new task behind all of it:
/// the queue grows by one, every task already queued keeps its place, the new
/// task is last, and the dirty flag is up.
pub proof fn lemma_spawn_appends<T>(pre: RuntimeView<T>, task: T)
    ensures
        spawned(pre, task).tasks.len() == pre.tasks.len() + 1,
        forall|i: int| 0 <= i < pre.tasks.len() ==> spawned(pre, task).tasks[i] == pre.tasks[i],
        spawned(pre, task).tasks[pre.tasks.len() as int] == task,
        spawned(pre, task).dirty,
{
}

/// A timed step goes on stepping only after a step that polled without
/// finishing a task: whatever the budget, a step that finished a task or had
/// nothing to do ends the timed step with that very result, and a step that
/// polled without finishing leads to a new clock reading under the same budget.
pub proof fn lemma_timer_returns_step_result(budget: u128, r: StepResult)
    requires
        r != StepResult::Timeout,
    ensures
        r != StepResult::PolledSome ==> (StepTimer::AwaitStep { budget }).next_spec(
            TimerEvent::Stepped(r),
        ) == StepTimer::Finished(r),
        r == StepResult::PolledSome ==> (StepTimer::AwaitStep { budget }).next_spec(
            TimerEvent::Stepped(r),
        ) == (StepTimer::AwaitClock { budget, ended: false }),
{
}

/// A timed step steps exactly while the time elapsed is below the budget: a
/// reading below it leads to a step; a reading at or past it ends the stepping,
/// and the reading after that decides: `Timeout` if it is below the budget,
/// `PolledSome` otherwise.
pub proof fn lemma_timer_steps_within_budget(budget: u128, elapsed: u128)
    ensures
        elapsed < budget ==> (StepTimer::AwaitClock { budget, ended: false }).next_spec(
            TimerEvent::Elapsed(elapsed),
        ) == (StepTimer::AwaitStep { budget }),
        elapsed >= budget ==> (StepTimer::AwaitClock { budget, ended: false }).next_spec(
            TimerEvent::Elapsed(elapsed),
        ) == (StepTimer::AwaitClock { budget, ended: true }),
        elapsed < budget ==> (StepTimer::AwaitClock { budget, ended: true }).next_spec(
            TimerEvent::Elapsed(elapsed),
        ) == StepTimer::Finished(StepResult::Timeout),
        elapsed >= budget ==> (StepTimer::AwaitClock { budget, ended: true }).next_spec(
            TimerEvent::Elapsed(elapsed),
        ) == StepTimer::Finished(StepResult::PolledSome),
{
}

} // verus!
