use oysterpack::devops::SourceCodeLocation;
use oysterpack::monix::{Progress, State, TaskId, TimeoutRelativeState};
use oysterpack::testing;

#[test]
fn macro_src_loc() {
    let src_loc = SourceCodeLocation::new("oysterpack_core::devops::tests", 21);
    assert_eq!(src_loc.mod_path(), "oysterpack_core::devops::tests");
    assert_eq!(src_loc.crate_name(), "oysterpack_core");
    assert_eq!(src_loc.line(), 21);

    let src_loc = SourceCodeLocation::new("oysterpack_core::devops::tests::foo", 40);
    assert_eq!(src_loc.mod_path(), "oysterpack_core::devops::tests::foo");
    assert_eq!(src_loc.crate_name(), "oysterpack_core");
    assert_eq!(src_loc.line(), 40);

    assert_eq!(SourceCodeLocation::new("main", 1).crate_name(), "main");
}

#[test]
fn task_progress_is_capped_at_100() {
    let mut p = Progress::new();
    assert_eq!(p.value(), 0);
    assert_eq!(p.inc(30), 30);
    assert_eq!(p.inc(50), 80);
    assert!(!p.done());
    assert_eq!(p.inc(50), 100);
    assert!(p.done());
    assert_eq!(p.inc(255), 100);
}

#[test]
fn states() {
    assert_eq!(TaskId::from(5).value(), 5);
    assert_eq!(TimeoutRelativeState::Running.into_state(), State::Running);
    assert_eq!(TimeoutRelativeState::New.into_state(), State::New);
    assert!(State::TimedOut.terminal_state());
    assert!(State::Success.terminal_state());
    assert!(!State::Running.terminal_state());
}

#[test]
fn testing_id() {
    let id = testing::Id::from(255);
    assert_eq!(id.id(), 255);
    assert_eq!(*id, 255);
    assert_eq!(id.to_string(), "ff");
    let mut ran = false;
    testing::run_test(|| ran = true);
    assert!(ran);
}
