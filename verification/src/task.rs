//! The protocol by which one task is polled.
//!
//! A task carries three flags shared with its waker: `working` (a poll is under
//! way), `ready` (the task was woken since it was last polled) and `complete`
//! (its future has produced a value); and, under the lock on its future, a slot
//! that holds the future whenever no poll has it out (`has_future`). Polling a task is a short protocol: check
//! the flags, take the lock on the future, take the future out, poll it, and
//! send its value on once it has one. Each
//! stage is a state of `TaskPoll`; the caller performs the stage's work and
//! hands back what it found.

use crate::asrt::TaskState;
use vstd::prelude::*;

verus! {

/// Why waiting for a task's result failed.
#[derive(Clone, Copy, Debug, PartialEq, Eq, Structural)]
pub enum TaskError {
    /// The task dropped its result channel without sending (it panicked or was
    /// dropped before finishing).
    TaskNonResponsiveOrPanic,
}

/// The flags of one task, and whether its future sits in its slot.
#[derive(Clone, Copy, Debug, PartialEq, Eq, Structural)]
pub struct TaskFlags {
    pub working: bool,
    pub ready: bool,
    pub complete: bool,
    pub has_future: bool,
}

/// A task on which no poll is under way has its future in its slot.
pub open spec fn idle_has_future(f: TaskFlags) -> bool {
    !f.working ==> f.has_future
}

impl TaskFlags {
    /// The flags of a freshly spawned task: ready to be polled, not being worked
    /// on, not complete, its future in its slot.
    pub fn new() -> (f: TaskFlags)
        ensures
            f == (TaskFlags { working: false, ready: true, complete: false, has_future: true }),
    {
        TaskFlags { working: false, ready: true, complete: false, has_future: true }
    }
}

/// What trying to lock the task's future gave.
#[derive(Clone, Copy, Debug, PartialEq, Eq, Structural)]
pub enum LockOutcome {
    /// The lock was taken.
    Acquired,
    /// The lock was taken, but a previous holder panicked while holding it.
    Poisoned,
    /// Someone else holds the lock.
    WouldBlock,
}

/// What the caller found while performing a stage of a poll.
#[derive(Clone, Copy, Debug, PartialEq, Eq, Structural)]
pub enum PollEvent {
    /// The outcome of trying to lock the future.
    Lock(LockOutcome),
    /// Whether a future was found in its slot (it was taken out if so).
    Taken(bool),
    /// Whether polling the future gave its value (`true`) or it is pending.
    Polled(bool),
    /// The value was sent to whoever waits for the task's result.
    Sent,
}

/// The stage a poll is in; the state says what the caller does next.
#[derive(Clone, Copy, Debug, PartialEq, Eq, Structural)]
pub enum TaskPoll {
    /// Try to lock the future. `old_ready` is the ready flag as it was taken
    /// down when the poll began; it is put back if the lock is held elsewhere.
    AwaitLock { old_ready: bool },
    /// Take the future out of its slot.
    AwaitTake,
    /// Poll the future, and put it back in its slot.
    AwaitPoll,
    /// The future gave its value: send it to whoever waits for the result.
    AwaitSend,
    /// The poll is over with this outcome.
    Done(TaskState),
}

impl TaskPoll {
    /// Whether `event` is what this stage waits for, given the flags: what is
    /// found in the slot is what the flags say it holds.
    pub open spec fn accepts(self, flags: TaskFlags, event: PollEvent) -> bool {
        match self {
            TaskPoll::AwaitLock { .. } => event is Lock,
            TaskPoll::AwaitTake => event matches PollEvent::Taken(found) && found
                == flags.has_future,
            TaskPoll::AwaitPoll => event is Polled,
            TaskPoll::AwaitSend => event is Sent,
            TaskPoll::Done(_) => false,
        }
    }

    /// The first stage of a poll and the flags after it: a task that is being
    /// worked on, or was not woken, is not polled; otherwise it is marked as
    /// worked on and its ready flag is taken down.
    pub open spec fn begin_spec(flags: TaskFlags) -> (TaskPoll, TaskFlags) {
        if flags.working || !flags.ready {
            (TaskPoll::Done(TaskState::NotReady), flags)
        } else {
            (
                TaskPoll::AwaitLock { old_ready: flags.ready },
                TaskFlags { working: true, ready: false, ..flags },
            )
        }
    }

    /// The stage that follows `self` on `event`, and the flags after it.
    pub open spec fn next_spec(self, flags: TaskFlags, event: PollEvent) -> (TaskPoll, TaskFlags) {
        match (self, event) {
            (TaskPoll::AwaitLock { old_ready }, PollEvent::Lock(outcome)) => {
                if outcome == LockOutcome::WouldBlock {
                    (
                        TaskPoll::Done(TaskState::Locked),
                        TaskFlags { ready: old_ready, working: false, ..flags },
                    )
                } else {
                    (TaskPoll::AwaitTake, flags)
                }
            },
            (TaskPoll::AwaitTake, PollEvent::Taken(found)) => {
                if found {
                    (TaskPoll::AwaitPoll, TaskFlags { has_future: false, ..flags })
                } else {
                    (
                        TaskPoll::Done(TaskState::Complete),
                        TaskFlags { complete: true, working: false, ..flags },
                    )
                }
            },
            (TaskPoll::AwaitPoll, PollEvent::Polled(finished)) => {
                if finished {
                    (TaskPoll::AwaitSend, TaskFlags { has_future: true, ..flags })
                } else {
                    (
                        TaskPoll::Done(TaskState::NotReady),
                        TaskFlags { working: false, has_future: true, ..flags },
                    )
                }
            },
            (TaskPoll::AwaitSend, PollEvent::Sent) => (
                TaskPoll::Done(TaskState::Complete),
                TaskFlags { complete: true, working: false, ..flags },
            ),
            _ => (self, flags),
        }
    }

    /// Begins a poll of a task with these flags.
    pub fn begin(flags: &mut TaskFlags) -> (p: TaskPoll)
        ensures
            (p, *final(flags)) == TaskPoll::begin_spec(*old(flags)),
    {
        if flags.working || !flags.ready {
            TaskPoll::Done(TaskState::NotReady)
        } else {
            flags.working = true;
            let old_ready = flags.ready;
            flags.ready = false;
            TaskPoll::AwaitLock { old_ready }
        }
    }

    /// Advances a poll by what the caller found in the current stage.
    pub fn next(self, flags: &mut TaskFlags, event: PollEvent) -> (p: TaskPoll)
        requires
            self.accepts(*old(flags), event),
        ensures
            (p, *final(flags)) == self.next_spec(*old(flags), event),
    {
        match (self, event) {
            (TaskPoll::AwaitLock { old_ready }, PollEvent::Lock(outcome)) => {
                if outcome == LockOutcome::WouldBlock {
                    flags.ready = old_ready;
                    flags.working = false;
                    TaskPoll::Done(TaskState::Locked)
                } else {
                    TaskPoll::AwaitTake
                }
            },
            (TaskPoll::AwaitTake, PollEvent::Taken(found)) => {
                if found {
                    flags.has_future = false;
                    TaskPoll::AwaitPoll
                } else {
                    flags.complete = true;
                    flags.working = false;
                    TaskPoll::Done(TaskState::Complete)
                }
            },
            (TaskPoll::AwaitPoll, PollEvent::Polled(finished)) => {
                flags.has_future = true;
                if finished {
                    TaskPoll::AwaitSend
                } else {
                    flags.working = false;
                    TaskPoll::Done(TaskState::NotReady)
                }
            },
            (TaskPoll::AwaitSend, PollEvent::Sent) => {
                flags.complete = true;
                flags.working = false;
                TaskPoll::Done(TaskState::Complete)
            },
            _ => self,
        }
    }
}

/// A task is polled only when it was woken and no poll of it is under way: a
/// poll begun otherwise ends at once with `NotReady` and changes no flag.
pub proof fn lemma_poll_gate(flags: TaskFlags)
    ensures
        (flags.working || !flags.ready) ==> TaskPoll::begin_spec(flags) == (
            TaskPoll::Done(TaskState::NotReady),
            flags,
        ),
        (!flags.working && flags.ready) ==> TaskPoll::begin_spec(flags).0 is AwaitLock,
{
}

/// While a poll is under way the task is marked as worked on and its ready flag
/// is down; a poll that began its stages always ends by clearing the
/// worked-on mark.
pub proof fn lemma_poll_marks_work(p: TaskPoll, flags: TaskFlags, event: PollEvent)
    requires
        p !is Done,
        flags.working,
        !flags.ready,
        p.accepts(flags, event),
    ensures
        ({
            let (q, f) = p.next_spec(flags, event);
            &&& q is Done ==> !f.working
            &&& q !is Done ==> f.working && !f.ready
        }),
        ({
            let (q, f) = TaskPoll::begin_spec(flags);
            q !is Done ==> f.working && !f.ready
        }),
{
}

/// A poll that finds the future locked elsewhere leaves the ready flag as it
/// was before the poll began, so the task is polled again later; one that
/// reports `Complete` leaves the task marked complete; no poll ever clears the
/// complete flag.
pub proof fn lemma_poll_outcomes(p: TaskPoll, flags: TaskFlags, event: PollEvent)
    requires
        p.accepts(flags, event),
    ensures
        ({
            let (q, f) = p.next_spec(flags, event);
            &&& q == TaskPoll::Done(TaskState::Locked) ==> (p matches TaskPoll::AwaitLock {
                old_ready,
            } && f.ready == old_ready)
            &&& q == TaskPoll::Done(TaskState::Complete) ==> f.complete
            &&& flags.complete ==> f.complete
        }),
        ({
            let (q, f) = TaskPoll::begin_spec(flags);
            f.complete == flags.complete
        }),
{
}

/// How far a poll has come: its stages in the order they are passed.
pub open spec fn stage_rank(p: TaskPoll) -> nat {
    match p {
        TaskPoll::AwaitLock { .. } => 0,
        TaskPoll::AwaitTake => 1,
        TaskPoll::AwaitPoll => 2,
        TaskPoll::AwaitSend => 3,
        TaskPoll::Done(_) => 4,
    }
}

/// Each stage of a poll moves it strictly forward, so a poll takes each stage
/// at most once: the future is polled at most once, and its value is sent at
/// most once. A value is to be sent exactly when polling the future gave it, and
/// sending it is the only way on from there, to `Complete`. A poll ends
/// `Complete` exactly when the future's slot was found empty or the value was
/// sent.
pub proof fn lemma_poll_moves_forward(p: TaskPoll, flags: TaskFlags, event: PollEvent)
    requires
        p.accepts(flags, event),
    ensures
        stage_rank(p) < stage_rank(p.next_spec(flags, event).0),
        p.next_spec(flags, event).0 == TaskPoll::AwaitSend <==> (p == TaskPoll::AwaitPoll
            && event == PollEvent::Polled(true)),
        p == TaskPoll::AwaitSend ==> p.next_spec(flags, event).0 == TaskPoll::Done(
            TaskState::Complete,
        ),
        p.next_spec(flags, event).0 == TaskPoll::Done(TaskState::Complete) <==> ((p
            == TaskPoll::AwaitTake && event == PollEvent::Taken(false)) || (p
            == TaskPoll::AwaitSend && event == PollEvent::Sent)),
{
}

/// What holds of the flags at each stage of a poll: while it is under way the
/// task is marked as worked on; the future is out of its slot exactly between
/// taking it and polling it; and once the poll is over, an idle task has its
/// future in its slot.
pub open spec fn stage_inv(p: TaskPoll, f: TaskFlags) -> bool {
    match p {
        TaskPoll::AwaitLock { .. } => f.working && !f.ready && f.has_future,
        TaskPoll::AwaitTake => f.working && !f.ready && f.has_future,
        TaskPoll::AwaitPoll => f.working && !f.ready && !f.has_future,
        TaskPoll::AwaitSend => f.working && !f.ready && f.has_future,
        TaskPoll::Done(_) => idle_has_future(f),
    }
}

/// A task on which no poll is under way always has its future in its slot: a
/// new task does, and every stage of a poll, begun on such a task, keeps the
/// stage's flags as `stage_inv` says.
pub proof fn lemma_idle_task_has_future(flags: TaskFlags, p: TaskPoll, f: TaskFlags, event: PollEvent)
    requires
        idle_has_future(flags),
        stage_inv(p, f),
        p !is Done,
        p.accepts(f, event),
    ensures
        idle_has_future(
            TaskFlags { working: false, ready: true, complete: false, has_future: true },
        ),
        stage_inv(TaskPoll::begin_spec(flags).0, TaskPoll::begin_spec(flags).1),
        stage_inv(p.next_spec(f, event).0, p.next_spec(f, event).1),
{
}

/// A task is polled exactly when no poll of it is under way, it was woken, and
/// the lock on its future is free (a poisoned lock counts as free). Such a task
/// has its future in its slot, so after the lock is taken the future is taken
/// out and polled, once (every stage moves the poll forward, see
/// `lemma_poll_moves_forward`). A busy or unwoken task ends `NotReady` and a held
/// lock ends `Locked`, the future not polled.
pub proof fn lemma_woken_idle_task_is_polled(flags: TaskFlags, outcome: LockOutcome)
    requires
        idle_has_future(flags),
    ensures
        (flags.working || !flags.ready) ==> TaskPoll::begin_spec(flags).0 == TaskPoll::Done(
            TaskState::NotReady,
        ),
        (!flags.working && flags.ready) ==> ({
            let (p1, f1) = TaskPoll::begin_spec(flags);
            let (p2, f2) = p1.next_spec(f1, PollEvent::Lock(outcome));
            &&& p1 == TaskPoll::AwaitLock { old_ready: true }
            &&& outcome == LockOutcome::WouldBlock ==> p2 == TaskPoll::Done(TaskState::Locked)
            &&& outcome != LockOutcome::WouldBlock ==> {
                &&& p2 == TaskPoll::AwaitTake
                &&& p2.accepts(f2, PollEvent::Taken(true))
                &&& !p2.accepts(f2, PollEvent::Taken(false))
                &&& p2.next_spec(f2, PollEvent::Taken(true)).0 == TaskPoll::AwaitPoll
            }
        }),
{
}

} // verus!
