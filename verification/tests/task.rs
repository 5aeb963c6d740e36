use engine::asrt::TaskState;
use engine::task::{LockOutcome, PollEvent, TaskError, TaskFlags, TaskPoll};

#[test]
fn new_task_is_ready() {
    assert_eq!(TaskFlags::new(), TaskFlags { working: false, ready: true, complete: false, has_future: true });
}

#[test]
fn busy_or_unwoken_task_is_not_polled() {
    let mut f = TaskFlags { working: true, ready: true, complete: false, has_future: true };
    assert_eq!(TaskPoll::begin(&mut f), TaskPoll::Done(TaskState::NotReady));
    assert_eq!(f, TaskFlags { working: true, ready: true, complete: false, has_future: true });
    let mut g = TaskFlags { working: false, ready: false, complete: false, has_future: true };
    assert_eq!(TaskPoll::begin(&mut g), TaskPoll::Done(TaskState::NotReady));
    assert_eq!(g, TaskFlags { working: false, ready: false, complete: false, has_future: true });
}

#[test]
fn pending_poll_consumes_wakeup() {
    let mut f = TaskFlags::new();
    let p = TaskPoll::begin(&mut f);
    assert_eq!(p, TaskPoll::AwaitLock { old_ready: true });
    assert_eq!(f, TaskFlags { working: true, ready: false, complete: false, has_future: true });
    let p = p.next(&mut f, PollEvent::Lock(LockOutcome::Acquired));
    assert_eq!(p, TaskPoll::AwaitTake);
    let p = p.next(&mut f, PollEvent::Taken(true));
    assert_eq!(p, TaskPoll::AwaitPoll);
    assert_eq!(f, TaskFlags { working: true, ready: false, complete: false, has_future: false });
    let p = p.next(&mut f, PollEvent::Polled(false));
    assert_eq!(p, TaskPoll::Done(TaskState::NotReady));
    assert_eq!(f, TaskFlags { working: false, ready: false, complete: false, has_future: true });
}

#[test]
fn finished_poll_marks_complete() {
    let mut f = TaskFlags::new();
    let p = TaskPoll::begin(&mut f)
        .next(&mut f, PollEvent::Lock(LockOutcome::Poisoned))
        .next(&mut f, PollEvent::Taken(true));
    let p = p.next(&mut f, PollEvent::Polled(true));
    assert_eq!(p, TaskPoll::AwaitSend);
    assert_eq!(f, TaskFlags { working: true, ready: false, complete: false, has_future: true });
    let p = p.next(&mut f, PollEvent::Sent);
    assert_eq!(p, TaskPoll::Done(TaskState::Complete));
    assert_eq!(f, TaskFlags { working: false, ready: false, complete: true, has_future: true });
}

#[test]
fn locked_future_restores_ready() {
    let mut f = TaskFlags::new();
    let p = TaskPoll::begin(&mut f);
    let p = p.next(&mut f, PollEvent::Lock(LockOutcome::WouldBlock));
    assert_eq!(p, TaskPoll::Done(TaskState::Locked));
    assert_eq!(f, TaskFlags { working: false, ready: true, complete: false, has_future: true });
}

#[test]
fn missing_future_counts_as_complete() {
    let mut f = TaskFlags { working: false, ready: true, complete: false, has_future: false };
    let p = TaskPoll::begin(&mut f).next(&mut f, PollEvent::Lock(LockOutcome::Acquired));
    let p = p.next(&mut f, PollEvent::Taken(false));
    assert_eq!(p, TaskPoll::Done(TaskState::Complete));
    assert_eq!(f, TaskFlags { working: false, ready: false, complete: true, has_future: false });
}

#[test]
fn task_error_variant() {
    let e = TaskError::TaskNonResponsiveOrPanic;
    assert_eq!(e, TaskError::TaskNonResponsiveOrPanic);
}
