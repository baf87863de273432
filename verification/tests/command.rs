use oysterpack::command::{CommandId, PollOutcome, Progress, Status};

/// Drives a command's progress through one poll of its future, as the command future does.
fn poll(progress: &mut Progress, now: u128, elapsed: u128, outcome: PollOutcome) -> bool {
    if !progress.begin_poll(now) {
        return false;
    }
    progress.end_poll(elapsed, now + elapsed, outcome);
    true
}

#[test]
fn command_success_with_progress_subscriber() {
    let foo_id = CommandId::new(1);
    let mut progress = Progress::new(foo_id, 1_000);
    assert_eq!(progress.status(), Status::CREATED);
    assert!(poll(&mut progress, 2_000, 15, PollOutcome::Ready));
    assert_eq!(progress.status(), Status::SUCCESS);
    assert_eq!(progress.poll_counter(), 1);
    assert!(progress.poll_duration() > 0);
    assert_eq!(progress.first_polled(), Some(2_000));
    assert_eq!(progress.last_polled(), Some(2_000));
    assert_eq!(progress.completed(), Some(2_015));
    assert_eq!(progress.created(), 1_000);
    assert_eq!(progress.id(), foo_id);
    assert!(progress.done());
}

#[test]
fn command_failure_with_progress_subscriber() {
    let mut progress = Progress::new(CommandId::new(1), 0);
    assert!(poll(&mut progress, 10, 5, PollOutcome::Failed));
    assert_eq!(progress.status(), Status::FAILURE);
    assert_eq!(progress.poll_counter(), 1);
    assert!(progress.done());
}

#[test]
fn command_running_until_ready() {
    let mut progress = Progress::new(CommandId::new(7), 0);
    assert!(poll(&mut progress, 10, 5, PollOutcome::NotReady));
    assert_eq!(progress.status(), Status::RUNNING);
    assert!(!progress.done());
    assert!(poll(&mut progress, 20, 7, PollOutcome::NotReady));
    assert_eq!(progress.first_polled(), Some(10));
    assert_eq!(progress.last_polled(), Some(20));
    assert!(poll(&mut progress, 30, 1, PollOutcome::Ready));
    assert_eq!(progress.poll_counter(), 3);
    assert_eq!(progress.poll_duration(), 13);
    assert_eq!(progress.status(), Status::SUCCESS);
}

#[test]
fn polls_after_completion_change_nothing() {
    let mut progress = Progress::new(CommandId::new(7), 0);
    assert!(poll(&mut progress, 10, 5, PollOutcome::Ready));
    let snapshot = progress;
    assert!(!poll(&mut progress, 50, 5, PollOutcome::Failed));
    assert_eq!(progress, snapshot);
}

#[test]
fn command_ids() {
    assert_eq!(CommandId::new(42).value(), 42);
    let a = Progress::new(CommandId::new(1), 0);
    let b = Progress::new(CommandId::new(1), 0);
    assert_ne!(a.instance_id(), b.instance_id());
}
