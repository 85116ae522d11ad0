use nupack::builder::{run_build, BuildRun};
use nupack::errors::RunError;

#[test]
fn aborts_on_first_failing_target() {
    let targets = vec!["t1".to_string(), "t2".to_string(), "t3".to_string()];
    let statuses = vec![true, false, true];
    let (invoked, err) = run_build(&targets, &statuses);
    // The third target is never invoked.
    assert_eq!(invoked, 2);
    match err {
        Some(RunError::BuildFailed(t)) => assert_eq!(t, "t2"),
        other => panic!("expected BuildFailed for t2, got {:?}", other),
    }
}

#[test]
fn all_successes_invoke_every_target_in_order() {
    let targets = vec!["t1".to_string(), "t2".to_string(), "t3".to_string()];
    let statuses = vec![true, true, true];
    let (invoked, err) = run_build(&targets, &statuses);
    assert_eq!(invoked, 3);
    assert!(err.is_none());
}

#[test]
fn no_targets_is_a_successful_run() {
    let (invoked, err) = run_build(&Vec::<String>::new(), &Vec::<bool>::new());
    assert_eq!(invoked, 0);
    assert!(err.is_none());
}

#[test]
fn build_run_issues_targets_sequentially() {
    let targets = vec!["a".to_string(), "b".to_string()];
    let mut run = BuildRun::new(targets);
    assert_eq!(run.next_target(), Some("a".to_string()));
    run.record_success();
    assert_eq!(run.next_target(), Some("b".to_string()));
    run.record_success();
    assert_eq!(run.next_target(), None);
}

#[test]
fn build_run_stops_issuing_after_a_failure() {
    let targets = vec!["a".to_string(), "b".to_string()];
    let mut run = BuildRun::new(targets);
    assert_eq!(run.next_target(), Some("a".to_string()));
    let err = run.record_failure();
    match err {
        RunError::BuildFailed(t) => assert_eq!(t, "a"),
        other => panic!("expected BuildFailed for a, got {:?}", other),
    }
    assert_eq!(run.next_target(), None);
}

#[test]
fn build_failure_message_names_the_target() {
    let targets = vec!["aarch64-pc-windows-msvc".to_string()];
    let statuses = vec![false];
    let (_, err) = run_build(&targets, &statuses);
    assert_eq!(
        err.unwrap().message(),
        "Failed to build 'aarch64-pc-windows-msvc' target!"
    );
}
