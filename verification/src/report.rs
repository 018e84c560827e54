//! Human-readable rendering: decimal numbers, bounded truncation of captured
//! output, the execution plan announcement, and the execution report.

use vstd::prelude::*;
use vstd::string::*;
use crate::executor::{command_pairs, CmdResultView, CommandResult, TaskCommand};

verus! {

/// The marker appended when captured output is cut off.
pub open spec fn truncation_marker() -> Seq<char> {
    "...(truncated)"@
}

/// The decimal digit `d` as a character.
pub open spec fn digit_char(d: nat) -> char {
    if d == 0 { '0' }
    else if d == 1 { '1' }
    else if d == 2 { '2' }
    else if d == 3 { '3' }
    else if d == 4 { '4' }
    else if d == 5 { '5' }
    else if d == 6 { '6' }
    else if d == 7 { '7' }
    else if d == 8 { '8' }
    else { '9' }
}

/// The decimal representation of `n`, most significant digit first.
pub open spec fn dec_rep(n: nat) -> Seq<char>
    decreases n,
{
    if n < 10 {
        seq![digit_char(n)]
    } else {
        dec_rep(n / 10) + seq![digit_char(n % 10)]
    }
}

/// `s` cut to at most `max` characters; longer input is cut to exactly
/// `max` characters followed by the truncation marker.
pub open spec fn truncate_spec(s: Seq<char>, max: int) -> Seq<char> {
    if s.len() <= max {
        s
    } else {
        s.subrange(0, max) + truncation_marker()
    }
}

/// A single decimal digit as a string slice.
fn digit_str(d: u64) -> (r: &'static str)
    requires
        d < 10,
    ensures
        r@ == seq![digit_char(d as nat)],
{
    proof {
        reveal_strlit("0");
        reveal_strlit("1");
        reveal_strlit("2");
        reveal_strlit("3");
        reveal_strlit("4");
        reveal_strlit("5");
        reveal_strlit("6");
        reveal_strlit("7");
        reveal_strlit("8");
        reveal_strlit("9");
    }
    let r = if d == 0 { "0" }
    else if d == 1 { "1" }
    else if d == 2 { "2" }
    else if d == 3 { "3" }
    else if d == 4 { "4" }
    else if d == 5 { "5" }
    else if d == 6 { "6" }
    else if d == 7 { "7" }
    else if d == 8 { "8" }
    else { "9" };
    proof {
        assert(r@ =~= seq![digit_char(d as nat)]);
    }
    r
}

/// Appends the decimal representation of `n` to `out`.
pub fn push_decimal(out: &mut String, n: u64)
    ensures
        final(out)@ == old(out)@ + dec_rep(n as nat),
    decreases n,
{
    if n < 10 {
        out.append(digit_str(n));
    } else {
        push_decimal(out, n / 10);
        out.append(digit_str(n % 10));
        proof {
            assert(out@ =~= old(out)@ + dec_rep(n as nat));
        }
    }
}

/// The decimal representation of `n` as a fresh string.
pub fn decimal_string(n: u64) -> (r: String)
    ensures
        r@ == dec_rep(n as nat),
{
    let mut out = String::new();
    push_decimal(&mut out, n);
    proof {
        assert(out@ =~= dec_rep(n as nat));
    }
    out
}

/// Cuts `s` to at most `max` characters, marking longer input as truncated.
pub fn truncate(s: &str, max: usize) -> (r: String)
    ensures
        r@ == truncate_spec(s@, max as int),
{
    let n = s.unicode_len();
    if n <= max {
        s.to_owned()
    } else {
        let mut out = s.substring_char(0, max).to_owned();
        out.append("...(truncated)");
        out
    }
}

/// The status marker shown before each result line.
pub open spec fn status_icon(success: bool) -> Seq<char> {
    if success {
        "[ok]"@
    } else {
        "[fail]"@
    }
}

/// The description shown for result `i`: the matching command's
/// description, or a placeholder past the end of the command list.
pub open spec fn desc_of(commands: Seq<(Seq<char>, Seq<char>)>, i: int) -> Seq<char> {
    if 0 <= i < commands.len() {
        commands[i].1
    } else {
        "unknown"@
    }
}

/// One result's lines in the report: status and description, the command,
/// then captured output cut at 500 characters and captured error output cut
/// at 300 characters, each section only when non-empty.
pub open spec fn result_line(desc: Seq<char>, r: CmdResultView) -> Seq<char> {
    status_icon(r.success) + " "@ + desc + "\n"@ + "  command: "@ + r.command + "\n"@ + (
    if r.stdout.len() > 0 {
        "  output:\n"@ + truncate_spec(r.stdout, 500) + "\n"@
    } else {
        Seq::empty()
    }) + (
    if r.stderr.len() > 0 {
        "  error:\n"@ + truncate_spec(r.stderr, 300) + "\n"@
    } else {
        Seq::empty()
    }) + "\n"@
}

/// The report for the first `n` results.
pub open spec fn report_upto(
    commands: Seq<(Seq<char>, Seq<char>)>,
    results: Seq<CmdResultView>,
    n: int,
) -> Seq<char>
    decreases n,
{
    if n <= 0 {
        "Task execution report\n\n"@
    } else {
        report_upto(commands, results, n - 1) + result_line(desc_of(commands, n - 1), results[n - 1])
    }
}

/// The whole human-readable execution report.
pub open spec fn report_spec(
    commands: Seq<(Seq<char>, Seq<char>)>,
    results: Seq<CmdResultView>,
) -> Seq<char> {
    report_upto(commands, results, results.len() as int)
}

/// Formats one result's lines of the report.
#[verifier::rlimit(80)]
fn format_result_line(desc: &str, r: &CommandResult) -> (line: String)
    ensures
        line@ == result_line(desc@, r@),
{
    let mut line = String::new();
    if r.success {
        line.append("[ok]");
    } else {
        line.append("[fail]");
    }
    line.append(" ");
    line.append(desc);
    line.append("\n");
    line.append("  command: ");
    line.append(r.command.as_str());
    line.append("\n");
    if !r.stdout.as_str().is_empty() {
        line.append("  output:\n");
        let cut = truncate(r.stdout.as_str(), 500);
        line.append(cut.as_str());
        line.append("\n");
    }
    if !r.stderr.as_str().is_empty() {
        line.append("  error:\n");
        let cut = truncate(r.stderr.as_str(), 300);
        line.append(cut.as_str());
        line.append("\n");
    }
    line.append("\n");
    proof {
        assert(line@ =~= result_line(desc@, r@));
    }
    line
}

/// Formats the execution report for a command list and the results of its
/// attempted prefix.
pub fn format_results(commands: &Vec<TaskCommand>, results: &Vec<CommandResult>) -> (r: String)
    ensures
        r@ == report_spec(command_pairs(commands@), results@.map_values(|c: CommandResult| c@)),
{
    let ghost cps = command_pairs(commands@);
    let ghost rvs = results@.map_values(|c: CommandResult| c@);
    let mut msg = String::from_str("Task execution report\n\n");
    let mut i: usize = 0;
    while i < results.len()
        invariant
            i <= results@.len(),
            cps == command_pairs(commands@),
            rvs == results@.map_values(|c: CommandResult| c@),
            msg@ == report_upto(cps, rvs, i as int),
        decreases results@.len() - i,
    {
        let r = &results[i];
        let line = if i < commands.len() {
            proof {
                assert(desc_of(cps, i as int) == commands@[i as int].description@);
            }
            format_result_line(commands[i].description.as_str(), r)
        } else {
            format_result_line("unknown", r)
        };
        msg.append(line.as_str());
        proof {
            assert(rvs[i as int] == results@[i as int]@);
            assert(msg@ == report_upto(cps, rvs, i as int + 1));
        }
        i = i + 1;
    }
    msg
}

/// One line of the plan announcement: its one-based number, the
/// description, and the command.
pub open spec fn plan_line(i: int, c: (Seq<char>, Seq<char>)) -> Seq<char> {
    dec_rep((i + 1) as nat) + ". "@ + c.1 + " -> `"@ + c.0 + "`\n"@
}

/// The plan announcement for the first `n` commands.
pub open spec fn plan_upto(commands: Seq<(Seq<char>, Seq<char>)>, n: int) -> Seq<char>
    decreases n,
{
    if n <= 0 {
        "Execution plan:\n"@
    } else {
        plan_upto(commands, n - 1) + plan_line(n - 1, commands[n - 1])
    }
}

/// The whole plan announcement: the ordered, numbered list of
/// (description, command) pairs as one message.
pub open spec fn plan_spec(commands: Seq<(Seq<char>, Seq<char>)>) -> Seq<char> {
    plan_upto(commands, commands.len() as int)
}

/// Formats the plan announcement for a command list.
pub fn format_plan(commands: &Vec<TaskCommand>) -> (r: String)
    ensures
        r@ == plan_spec(command_pairs(commands@)),
{
    let ghost cps = command_pairs(commands@);
    let mut msg = String::from_str("Execution plan:\n");
    let mut i: usize = 0;
    while i < commands.len()
        invariant
            i <= commands@.len(),
            cps == command_pairs(commands@),
            msg@ == plan_upto(cps, i as int),
        decreases commands@.len() - i,
    {
        push_decimal(&mut msg, (i + 1) as u64);
        msg.append(". ");
        msg.append(commands[i].description.as_str());
        msg.append(" -> `");
        msg.append(commands[i].command.as_str());
        msg.append("`\n");
        proof {
            assert(cps[i as int] == commands@[i as int].pair());
            assert(msg@ =~= plan_upto(cps, i as int + 1));
        }
        i = i + 1;
    }
    msg
}

} // verus!
