use engine::asrt::{Runtime, StepResult, StepScan, StepTimer, TaskState, TimerEvent};

/// Runs one step, polling each task the step names with `poll`; records the
/// tasks polled, in order.
fn step_with(rt: &mut Runtime<u32>, poll: fn(&u32) -> TaskState, polled: &mut Vec<u32>) -> StepResult {
    let mut scan = StepScan::start(rt);
    loop {
        match scan {
            StepScan::AwaitPoll { index } => {
                let t = *rt.get(index).unwrap();
                polled.push(t);
                scan = scan.next(rt, poll(&t));
            }
            StepScan::Finished(r) => return r,
        }
    }
}

fn step(rt: &mut Runtime<u32>, poll: fn(&u32) -> TaskState) -> StepResult {
    step_with(rt, poll, &mut Vec::new())
}

fn finish_two(t: &u32) -> TaskState {
    if *t == 2 {
        TaskState::Complete
    } else {
        TaskState::NotReady
    }
}

fn never_finish(_t: &u32) -> TaskState {
    TaskState::NotReady
}

#[test]
fn new_runtime_is_empty_and_idle() {
    let mut rt: Runtime<u32> = Runtime::new();
    assert_eq!(rt.len(), 0);
    assert!(!rt.is_dirty());
    assert_eq!(step(&mut rt, never_finish), StepResult::NoActionTake);
}

#[test]
fn spawn_queues_at_back_and_marks_dirty() {
    let mut rt: Runtime<u32> = Runtime::new();
    rt.spawn(1);
    rt.spawn(2);
    rt.spawn(3);
    assert_eq!(rt.len(), 3);
    assert!(rt.is_dirty());
    assert_eq!(rt.get(0), Some(&1));
    assert_eq!(rt.get(2), Some(&3));
    assert_eq!(rt.get(3), None);
}

#[test]
fn step_takes_out_first_finished_task_and_keeps_order() {
    let mut rt: Runtime<u32> = Runtime::new();
    rt.spawn(1);
    rt.spawn(2);
    rt.spawn(3);
    let mut polled = Vec::new();
    assert_eq!(step_with(&mut rt, finish_two, &mut polled), StepResult::CompletedTask);
    assert_eq!(polled, vec![1, 2]);
    assert_eq!(rt.len(), 2);
    assert_eq!(rt.get(0), Some(&1));
    assert_eq!(rt.get(1), Some(&3));
    assert!(rt.is_dirty());
}

#[test]
fn full_pass_without_finish_lowers_flag_then_idles() {
    let mut rt: Runtime<u32> = Runtime::new();
    rt.spawn(1);
    rt.spawn(3);
    let mut polled = Vec::new();
    assert_eq!(step_with(&mut rt, finish_two, &mut polled), StepResult::PolledSome);
    assert_eq!(polled, vec![1, 3]);
    assert!(!rt.is_dirty());
    assert_eq!(rt.len(), 2);
    assert_eq!(step(&mut rt, finish_two), StepResult::NoActionTake);
    assert_eq!(rt.len(), 2);
}

#[test]
fn dirty_empty_runtime_polls_some() {
    let mut rt: Runtime<u32> = Runtime::new();
    rt.mark_dirty();
    assert_eq!(step(&mut rt, never_finish), StepResult::PolledSome);
    assert!(!rt.is_dirty());
}

#[test]
fn spawned_task_is_polled_by_next_step() {
    let mut rt: Runtime<u32> = Runtime::new();
    rt.spawn(1);
    assert_eq!(step(&mut rt, never_finish), StepResult::PolledSome);
    rt.spawn(2);
    assert_eq!(step(&mut rt, finish_two), StepResult::CompletedTask);
    assert_eq!(rt.len(), 1);
    assert_eq!(rt.get(0), Some(&1));
}

#[test]
fn mark_dirty_wakes_idle_runtime() {
    let mut rt: Runtime<u32> = Runtime::new();
    rt.spawn(5);
    assert_eq!(step(&mut rt, never_finish), StepResult::PolledSome);
    assert_eq!(step(&mut rt, never_finish), StepResult::NoActionTake);
    rt.mark_dirty();
    assert_eq!(step(&mut rt, never_finish), StepResult::PolledSome);
}

#[test]
fn timer_steps_while_budget_lasts() {
    let t = StepTimer::start(1_000);
    assert_eq!(t, StepTimer::AwaitClock { budget: 1_000, ended: false });
    let t = t.next(TimerEvent::Elapsed(10));
    assert_eq!(t, StepTimer::AwaitStep { budget: 1_000 });
    let t = t.next(TimerEvent::Stepped(StepResult::PolledSome));
    assert_eq!(t, StepTimer::AwaitClock { budget: 1_000, ended: false });
    let t = t.next(TimerEvent::Elapsed(1_000));
    assert_eq!(t, StepTimer::AwaitClock { budget: 1_000, ended: true });
    let t = t.next(TimerEvent::Elapsed(1_200));
    assert_eq!(t, StepTimer::Finished(StepResult::PolledSome));
}

#[test]
fn timer_returns_completed_or_idle_step_at_once() {
    let t = StepTimer::start(50).next(TimerEvent::Elapsed(0));
    assert_eq!(
        t.next(TimerEvent::Stepped(StepResult::CompletedTask)),
        StepTimer::Finished(StepResult::CompletedTask)
    );
    assert_eq!(
        t.next(TimerEvent::Stepped(StepResult::NoActionTake)),
        StepTimer::Finished(StepResult::NoActionTake)
    );
}

#[test]
fn timer_times_out_only_if_clock_goes_back() {
    let t = StepTimer::start(100).next(TimerEvent::Elapsed(150));
    assert_eq!(t.next(TimerEvent::Elapsed(99)), StepTimer::Finished(StepResult::Timeout));
}

#[test]
fn timer_with_zero_budget_never_steps() {
    let t = StepTimer::start(0).next(TimerEvent::Elapsed(0));
    assert_eq!(t, StepTimer::AwaitClock { budget: 0, ended: true });
    assert_eq!(t.next(TimerEvent::Elapsed(0)), StepTimer::Finished(StepResult::PolledSome));
}

#[test]
fn push_back_leaves_flag_alone() {
    let mut rt: Runtime<u32> = Runtime::new();
    rt.push_back(4);
    assert_eq!(rt.len(), 1);
    assert!(!rt.is_dirty());
    let mut polled = Vec::new();
    assert_eq!(step_with(&mut rt, never_finish, &mut polled), StepResult::NoActionTake);
    assert!(polled.is_empty());
    rt.mark_dirty();
    assert_eq!(step_with(&mut rt, never_finish, &mut polled), StepResult::PolledSome);
    assert_eq!(polled, vec![4]);
}

#[test]
fn scan_states_name_each_index_once() {
    let mut rt: Runtime<u32> = Runtime::new();
    rt.spawn(7);
    rt.spawn(8);
    let s = StepScan::start(&mut rt);
    assert_eq!(s, StepScan::AwaitPoll { index: 0 });
    let s = s.next(&mut rt, TaskState::Locked);
    assert_eq!(s, StepScan::AwaitPoll { index: 1 });
    let s = s.next(&mut rt, TaskState::NotReady);
    assert_eq!(s, StepScan::Finished(StepResult::PolledSome));
    assert!(!rt.is_dirty());
}
