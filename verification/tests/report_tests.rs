use cmdbot::executor::{CommandResult, TaskCommand};
use cmdbot::report::{decimal_string, format_plan, format_results, truncate};

fn cmd(c: &str, d: &str) -> TaskCommand {
    TaskCommand { command: c.to_string(), description: d.to_string() }
}

fn result(c: &str, success: bool, code: Option<i32>, out: &str, err: &str) -> CommandResult {
    CommandResult {
        command: c.to_string(),
        success,
        exit_code: code,
        stdout: out.to_string(),
        stderr: err.to_string(),
    }
}

#[test]
fn short_text_is_reproduced_verbatim() {
    let s = "a".repeat(500);
    assert_eq!(truncate(&s, 500), s);
    assert_eq!(truncate("", 500), "");
    assert_eq!(truncate("hello", 500), "hello");
}

#[test]
fn long_text_is_cut_to_exactly_the_limit_plus_marker() {
    let s = "b".repeat(501);
    let cut = truncate(&s, 500);
    assert_eq!(cut.len(), 500 + "...(truncated)".len());
    assert_eq!(&cut[..500], "b".repeat(500).as_str());
    assert!(cut.ends_with("...(truncated)"));
}

#[test]
fn stdout_is_cut_at_500_and_stderr_at_300() {
    let commands = vec![cmd("noisy", "much output")];
    let results = vec![result("noisy", false, Some(3), &"o".repeat(700), &"e".repeat(700))];
    let report = format_results(&commands, &results);
    let expected_out = format!("{}...(truncated)", "o".repeat(500));
    let expected_err = format!("{}...(truncated)", "e".repeat(300));
    assert!(report.contains(&expected_out));
    assert!(!report.contains(&"o".repeat(501)));
    assert!(report.contains(&expected_err));
    assert!(!report.contains(&"e".repeat(301)));
}

#[test]
fn report_for_one_success_is_exact() {
    let commands = vec![cmd("echo hi", "say hi")];
    let results = vec![result("echo hi", true, Some(0), "hi\n", "")];
    let report = format_results(&commands, &results);
    assert_eq!(
        report,
        "Task execution report\n\n[ok] say hi\n  command: echo hi\n  output:\nhi\n\n\n"
    );
}

#[test]
fn report_for_a_failure_is_exact() {
    let commands = vec![cmd("boom", "explode")];
    let results = vec![result("boom", false, Some(1), "", "went wrong")];
    let report = format_results(&commands, &results);
    assert_eq!(
        report,
        "Task execution report\n\n[fail] explode\n  command: boom\n  error:\nwent wrong\n\n"
    );
}

#[test]
fn missing_description_shows_a_placeholder() {
    let commands: Vec<TaskCommand> = Vec::new();
    let results = vec![result("x", true, Some(0), "", "")];
    let report = format_results(&commands, &results);
    assert_eq!(report, "Task execution report\n\n[ok] unknown\n  command: x\n\n");
}

#[test]
fn empty_sections_are_omitted() {
    let commands = vec![cmd("quiet", "no output")];
    let results = vec![result("quiet", true, Some(0), "", "")];
    let report = format_results(&commands, &results);
    assert!(!report.contains("output:"));
    assert!(!report.contains("error:"));
}

#[test]
fn plan_is_numbered_from_one() {
    let commands = vec![cmd("c1", "d1"), cmd("c2", "d2")];
    let plan = format_plan(&commands);
    assert_eq!(plan, "Execution plan:\n1. d1 -> `c1`\n2. d2 -> `c2`\n");
}

#[test]
fn plan_numbers_reach_two_digits() {
    let commands: Vec<TaskCommand> =
        (0..12).map(|i| cmd(&format!("c{i}"), &format!("d{i}"))).collect();
    let plan = format_plan(&commands);
    assert!(plan.contains("\n10. d9 -> `c9`\n"));
    assert!(plan.contains("\n12. d11 -> `c11`\n"));
}

#[test]
fn decimal_rendering_is_exact() {
    assert_eq!(decimal_string(0), "0");
    assert_eq!(decimal_string(7), "7");
    assert_eq!(decimal_string(10), "10");
    assert_eq!(decimal_string(120), "120");
    assert_eq!(decimal_string(9876543210), "9876543210");
    assert_eq!(decimal_string(u64::MAX), "18446744073709551615");
}

#[test]
fn truncation_counts_characters_not_bytes() {
    let s: String = "é".repeat(10);
    assert_eq!(truncate(&s, 10), s);
    let cut = truncate(&s, 9);
    assert_eq!(cut, format!("{}...(truncated)", "é".repeat(9)));
}
