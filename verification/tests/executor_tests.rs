use cmdbot::config::ExecutorConfig;
use cmdbot::executor::{Execution, Executor, RunOutcome, TaskCommand};

fn cmd(c: &str, d: &str) -> TaskCommand {
    TaskCommand { command: c.to_string(), description: d.to_string() }
}

fn completed(code: Option<i32>, out: &str, err: &str) -> RunOutcome {
    RunOutcome::Completed {
        exit_code: code,
        stdout: out.to_string(),
        stderr: err.to_string(),
    }
}

fn config(timeout_secs: u64) -> ExecutorConfig {
    ExecutorConfig { working_dir: None, timeout_secs, echo_result: true }
}

#[test]
fn empty_command_list_runs_nothing() {
    let executor = Executor::new(config(120));
    let run = executor.start(Vec::new());
    assert!(run.next_command().is_none());
    assert!(run.is_done());
    assert!(run.results.is_empty());
}

#[test]
fn fail_stop_halts_at_first_nonzero_exit() {
    let executor = Executor::new(config(120));
    let mut run = executor.start(vec![cmd("a", "A"), cmd("b", "B"), cmd("c", "C")]);

    assert_eq!(run.next_command().unwrap().command, "a");
    run.record(completed(Some(0), "ok-a", ""));

    assert_eq!(run.next_command().unwrap().command, "b");
    run.record(completed(Some(1), "", "bad-b"));

    // The third command is never handed out.
    assert!(run.next_command().is_none());
    assert!(run.is_done());

    assert_eq!(run.results.len(), 2);
    assert!(run.results[0].success);
    assert_eq!(run.results[0].exit_code, Some(0));
    assert_eq!(run.results[0].stdout, "ok-a");
    assert!(!run.results[1].success);
    assert_eq!(run.results[1].exit_code, Some(1));
    assert_eq!(run.results[1].stderr, "bad-b");
}

#[test]
fn all_successful_commands_run_to_the_end() {
    let executor = Executor::new(config(5));
    let mut run = executor.start(vec![cmd("a", ""), cmd("b", "")]);
    run.record(completed(Some(0), "", ""));
    run.record(completed(Some(0), "", ""));
    assert!(run.is_done());
    assert!(run.next_command().is_none());
    assert_eq!(run.results.len(), 2);
    assert!(run.results.iter().all(|r| r.success));
}

#[test]
fn timeout_is_a_failure_distinct_from_nonzero_exit() {
    let executor = Executor::new(config(120));
    let mut run = executor.start(vec![cmd("sleep 999", "nap"), cmd("b", "")]);
    run.record(RunOutcome::TimedOut);
    assert!(run.is_done());
    assert_eq!(run.results.len(), 1);
    let r = &run.results[0];
    assert!(!r.success);
    assert_eq!(r.exit_code, None);
    assert_eq!(r.stdout, "");
    assert_eq!(r.stderr, "command timed out after 120 s: sleep 999");
}

#[test]
fn spawn_failure_halts_with_message() {
    let executor = Executor::new(config(7));
    let mut run = executor.start(vec![cmd("nosuch", ""), cmd("b", "")]);
    run.record(RunOutcome::SpawnFailed);
    assert!(run.is_done());
    assert_eq!(run.results.len(), 1);
    let r = &run.results[0];
    assert!(!r.success);
    assert_eq!(r.exit_code, None);
    assert_eq!(r.stderr, "command failed to start: nosuch");
}

#[test]
fn killed_process_without_exit_code_is_a_failure() {
    let executor = Executor::new(config(120));
    let mut run = executor.start(vec![cmd("a", "")]);
    run.record(completed(None, "", "signal"));
    let r = &run.results[0];
    assert!(!r.success);
    assert_eq!(r.exit_code, None);
}

#[test]
fn success_is_consistent_with_exit_code() {
    let executor = Executor::new(config(120));
    let mut run = executor.start(vec![cmd("a", ""), cmd("b", "")]);
    run.record(completed(Some(0), "", ""));
    run.record(completed(Some(2), "", ""));
    for r in run.results.iter() {
        assert_eq!(r.success, r.exit_code == Some(0));
    }

    let mut run2 = Execution::new(vec![cmd("x", "")], 3);
    run2.record(RunOutcome::TimedOut);
    for r in run2.results.iter() {
        assert_eq!(r.success, r.exit_code == Some(0));
    }
}

#[test]
fn results_keep_the_attempted_commands_in_order() {
    let executor = Executor::new(config(120));
    let mut run = executor.start(vec![cmd("first", ""), cmd("second", "")]);
    run.record(completed(Some(0), "", ""));
    run.record(completed(Some(0), "", ""));
    assert_eq!(run.results[0].command, "first");
    assert_eq!(run.results[1].command, "second");
}
