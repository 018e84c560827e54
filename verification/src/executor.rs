//! Fail-stop sequential execution of a command list.
//!
//! The process spawning itself is I/O and lives outside the crate; a driver
//! asks [`Execution`] which command to run next, performs it, and hands the
//! observed [`RunOutcome`] back. The machine turns each outcome into a
//! [`CommandResult`] and halts at the first command that does not succeed,
//! so a command after a failed one is never handed out.

use vstd::prelude::*;
use vstd::string::*;
use crate::config::ExecutorConfig;
use crate::report::dec_rep;
use crate::report::push_decimal;

verus! {

/// One planned shell invocation with a human-readable description.
#[derive(Debug, Clone)]
pub struct TaskCommand {
    /// The shell command line to execute.
    pub command: String,
    /// Free-text explanation of what the command does.
    pub description: String,
}

impl TaskCommand {
    /// The command as a pair of character sequences: (command, description).
    pub open spec fn pair(self) -> (Seq<char>, Seq<char>) {
        (self.command@, self.description@)
    }
}

/// The pairs of (command, description) character sequences of a command list.
pub open spec fn command_pairs(cmds: Seq<TaskCommand>) -> Seq<(Seq<char>, Seq<char>)> {
    cmds.map_values(|c: TaskCommand| c.pair())
}

/// The outcome of attempting one command.
#[derive(Debug, Clone)]
pub struct CommandResult {
    /// The command line that was attempted.
    pub command: String,
    /// Whether the process terminated with exit status zero.
    pub success: bool,
    /// The exit status, absent if the process was killed, timed out, or
    /// failed to start.
    pub exit_code: Option<i32>,
    /// Captured standard output.
    pub stdout: String,
    /// Captured standard error, or the failure message when the command
    /// could not be run to completion.
    pub stderr: String,
}

/// The mathematical shadow of a [`CommandResult`].
pub ghost struct CmdResultView {
    pub command: Seq<char>,
    pub success: bool,
    pub exit_code: Option<int>,
    pub stdout: Seq<char>,
    pub stderr: Seq<char>,
}

impl View for CommandResult {
    type V = CmdResultView;

    open spec fn view(&self) -> CmdResultView {
        CmdResultView {
            command: self.command@,
            success: self.success,
            exit_code: match self.exit_code {
                Some(c) => Some(c as int),
                None => None,
            },
            stdout: self.stdout@,
            stderr: self.stderr@,
        }
    }
}

impl CmdResultView {
    /// Success is recorded if and only if the process exited with status 0.
    pub open spec fn consistent(self) -> bool {
        self.success <==> self.exit_code == Some(0int)
    }
}

/// What one invocation of the command runner observed.
pub enum RunOutcome {
    /// The process ran to completion (with any exit status; `exit_code` is
    /// absent when the process was killed by a signal).
    Completed { exit_code: Option<i32>, stdout: String, stderr: String },
    /// The wall-clock timeout elapsed before the process finished.
    TimedOut,
    /// The process could not be started at all.
    SpawnFailed,
}

/// The mathematical shadow of a [`RunOutcome`].
pub ghost enum OutcomeView {
    Completed { exit_code: Option<int>, stdout: Seq<char>, stderr: Seq<char> },
    TimedOut,
    SpawnFailed,
}

impl View for RunOutcome {
    type V = OutcomeView;

    open spec fn view(&self) -> OutcomeView {
        match self {
            RunOutcome::Completed { exit_code, stdout, stderr } => OutcomeView::Completed {
                exit_code: match exit_code {
                    Some(c) => Some(*c as int),
                    None => None,
                },
                stdout: stdout@,
                stderr: stderr@,
            },
            RunOutcome::TimedOut => OutcomeView::TimedOut,
            RunOutcome::SpawnFailed => OutcomeView::SpawnFailed,
        }
    }
}

/// The stderr text reported for a command stopped by the timeout.
pub open spec fn timeout_message(timeout_secs: u64, command: Seq<char>) -> Seq<char> {
    "command timed out after "@ + dec_rep(timeout_secs as nat) + " s: "@ + command
}

/// The stderr text reported for a command that could not be started.
pub open spec fn spawn_failure_message(command: Seq<char>) -> Seq<char> {
    "command failed to start: "@ + command
}

/// The result recorded for `command` when the runner observed `outcome`.
pub open spec fn step_result(
    command: Seq<char>,
    outcome: OutcomeView,
    timeout_secs: u64,
) -> CmdResultView {
    match outcome {
        OutcomeView::Completed { exit_code, stdout, stderr } => CmdResultView {
            command,
            success: exit_code == Some(0int),
            exit_code,
            stdout,
            stderr,
        },
        OutcomeView::TimedOut => CmdResultView {
            command,
            success: false,
            exit_code: None,
            stdout: Seq::empty(),
            stderr: timeout_message(timeout_secs, command),
        },
        OutcomeView::SpawnFailed => CmdResultView {
            command,
            success: false,
            exit_code: None,
            stdout: Seq::empty(),
            stderr: spawn_failure_message(command),
        },
    }
}

/// The fail-stop result sequence: commands are consumed in order, one
/// outcome each, and the sequence ends at the first unsuccessful result or
/// when commands or outcomes run out.
pub open spec fn fail_stop(
    commands: Seq<(Seq<char>, Seq<char>)>,
    outcomes: Seq<OutcomeView>,
    timeout_secs: u64,
) -> Seq<CmdResultView>
    decreases commands.len(),
{
    if commands.len() == 0 || outcomes.len() == 0 {
        Seq::empty()
    } else {
        let r = step_result(commands[0].0, outcomes[0], timeout_secs);
        if r.success {
            seq![r] + fail_stop(commands.drop_first(), outcomes.drop_first(), timeout_secs)
        } else {
            seq![r]
        }
    }
}

/// Every result that `fail_stop` yields is the step result of the matching
/// command and outcome; every result but the last is successful; the
/// sequence stops short of the commands only at an unsuccessful result; and
/// success is always consistent with the exit code.
pub proof fn lemma_fail_stop_properties(
    commands: Seq<(Seq<char>, Seq<char>)>,
    outcomes: Seq<OutcomeView>,
    timeout_secs: u64,
)
    ensures
        fail_stop(commands, outcomes, timeout_secs).len() <= commands.len(),
        fail_stop(commands, outcomes, timeout_secs).len() <= outcomes.len(),
        forall|i: int| 0 <= i < fail_stop(commands, outcomes, timeout_secs).len()
            ==> fail_stop(commands, outcomes, timeout_secs)[i]
                == step_result(commands[i].0, outcomes[i], timeout_secs),
        forall|i: int| 0 <= i < fail_stop(commands, outcomes, timeout_secs).len() - 1
            ==> fail_stop(commands, outcomes, timeout_secs)[i].success,
        fail_stop(commands, outcomes, timeout_secs).len() < commands.len()
            && fail_stop(commands, outcomes, timeout_secs).len() < outcomes.len()
            ==> !fail_stop(commands, outcomes, timeout_secs).last().success,
        forall|i: int| 0 <= i < fail_stop(commands, outcomes, timeout_secs).len()
            ==> fail_stop(commands, outcomes, timeout_secs)[i].consistent(),
        forall|i: int| 0 <= i < fail_stop(commands, outcomes, timeout_secs).len()
            ==> fail_stop(commands, outcomes, timeout_secs)[i].command == commands[i].0,
    decreases commands.len(),
{
    if commands.len() == 0 || outcomes.len() == 0 {
    } else {
        lemma_fail_stop_properties(
            commands.drop_first(),
            outcomes.drop_first(),
            timeout_secs,
        );
    }
}

/// Every recorded result is consistent: success is reported if and only if
/// the process exited with status zero; a timeout or a failure to start is
/// never reported as success.
pub proof fn lemma_step_result_consistent(command: Seq<char>, outcome: OutcomeView, timeout_secs: u64)
    ensures
        step_result(command, outcome, timeout_secs).consistent(),
        !(outcome matches OutcomeView::Completed { exit_code: Some(c), .. } && c == 0)
            ==> !step_result(command, outcome, timeout_secs).success,
{
}

/// A well-formed run over an empty command list records nothing: there is
/// never a pending command and its result sequence is empty.
pub proof fn lemma_empty_command_list(e: Execution)
    requires
        e.wf(),
        e.commands@.len() == 0,
    ensures
        e.results@.len() == 0,
{
}

/// What always holds of a well-formed run: the results are a prefix of the
/// command list, index-aligned with it; every result but the last is
/// successful, so nothing was attempted past a failure; an unexhausted,
/// unhalted run has only successes; and every result's success flag is
/// consistent with its exit code.
pub proof fn lemma_execution_invariants(e: Execution)
    requires
        e.wf(),
    ensures
        e.results@.len() <= e.commands@.len(),
        forall|i: int| 0 <= i < e.results@.len()
            ==> #[trigger] e.results@[i]@.command == e.commands@[i].command@,
        forall|i: int| 0 <= i < e.results@.len() - 1 ==> #[trigger] e.results@[i]@.success,
        !e.halted ==> forall|i: int| 0 <= i < e.results@.len()
            ==> #[trigger] e.results@[i]@.success,
        forall|i: int| 0 <= i < e.results@.len() ==> (#[trigger] e.results@[i]@).consistent(),
{
    let cps = command_pairs(e.commands@);
    let rs = e.results@.map_values(|r: CommandResult| r@);
    lemma_fail_stop_properties(cps, e.outcomes@, e.timeout_secs);
    assert forall|i: int| 0 <= i < e.results@.len()
        implies #[trigger] e.results@[i]@.command == e.commands@[i].command@ by {
        assert(e.results@[i]@ == rs[i]);
        assert(rs[i] == fail_stop(cps, e.outcomes@, e.timeout_secs)[i]);
        assert(cps[i].0 == e.commands@[i].command@);
    }
    assert forall|i: int| 0 <= i < e.results@.len()
        implies (#[trigger] e.results@[i]@).consistent() by {
        assert(e.results@[i]@ == rs[i]);
        assert(rs[i] == fail_stop(cps, e.outcomes@, e.timeout_secs)[i]);
    }
    assert forall|i: int| 0 <= i < e.results@.len() - 1
        implies #[trigger] e.results@[i]@.success by {
        assert(e.results@[i]@ == rs[i]);
        assert(rs[i] == fail_stop(cps, e.outcomes@, e.timeout_secs)[i]);
    }
}

/// Appending one more outcome to a run whose recorded results are all
/// successful extends the fail-stop sequence by exactly one step result.
pub proof fn lemma_fail_stop_snoc(
    commands: Seq<(Seq<char>, Seq<char>)>,
    outcomes: Seq<OutcomeView>,
    outcome: OutcomeView,
    timeout_secs: u64,
)
    requires
        outcomes.len() < commands.len(),
        fail_stop(commands, outcomes, timeout_secs).len() == outcomes.len(),
        forall|i: int| 0 <= i < outcomes.len()
            ==> fail_stop(commands, outcomes, timeout_secs)[i].success,
    ensures
        fail_stop(commands, outcomes.push(outcome), timeout_secs)
            =~= fail_stop(commands, outcomes, timeout_secs).push(
                step_result(commands[outcomes.len() as int].0, outcome, timeout_secs),
            ),
    decreases commands.len(),
{
    let cd = commands.drop_first();
    if outcomes.len() == 0 {
        let r = step_result(commands[0].0, outcome, timeout_secs);
        assert(outcomes.push(outcome)[0] == outcome);
        assert(outcomes.push(outcome).drop_first() =~= Seq::<OutcomeView>::empty());
        assert(fail_stop(cd, Seq::<OutcomeView>::empty(), timeout_secs)
            =~= Seq::<CmdResultView>::empty());
        if r.success {
            assert(fail_stop(commands, outcomes.push(outcome), timeout_secs)
                =~= Seq::<CmdResultView>::empty().push(r));
        } else {
            assert(fail_stop(commands, outcomes.push(outcome), timeout_secs)
                =~= Seq::<CmdResultView>::empty().push(r));
        }
    } else {
        let od = outcomes.drop_first();
        let rest = fail_stop(cd, od, timeout_secs);
        let r0 = step_result(commands[0].0, outcomes[0], timeout_secs);
        assert(fail_stop(commands, outcomes, timeout_secs)[0] == r0);
        assert(r0.success);
        assert(fail_stop(commands, outcomes, timeout_secs) == seq![r0] + rest);
        assert(rest.len() == od.len());
        assert forall|i: int| 0 <= i < od.len() implies rest[i].success by {
            assert(fail_stop(commands, outcomes, timeout_secs)[i + 1] == rest[i]);
        }
        assert(outcomes.push(outcome).drop_first() =~= od.push(outcome));
        lemma_fail_stop_snoc(cd, od, outcome, timeout_secs);
        assert(cd[od.len() as int].0 == commands[outcomes.len() as int].0);
        assert(outcomes.push(outcome)[0] == outcomes[0]);
        assert(fail_stop(commands, outcomes.push(outcome), timeout_secs)
            =~= seq![r0] + fail_stop(cd, od.push(outcome), timeout_secs));
    }
}

/// Executes command lists with the settings of an [`ExecutorConfig`].
pub struct Executor {
    pub config: ExecutorConfig,
}

impl Executor {
    pub fn new(config: ExecutorConfig) -> (e: Self)
        ensures
            e.config == config,
    {
        Executor { config }
    }

    /// Begins a fail-stop run of `commands` under this executor's timeout.
    pub fn start(&self, commands: Vec<TaskCommand>) -> (e: Execution)
        ensures
            e.wf(),
            e.commands@ == commands@,
            e.timeout_secs == self.config.timeout_secs,
            e.results@.len() == 0,
            !e.halted,
            e.outcomes@ == Seq::<OutcomeView>::empty(),
    {
        Execution::new(commands, self.config.timeout_secs)
    }
}

/// A fail-stop run in progress: the prefix of `commands` attempted so far,
/// one recorded result per attempted command.
pub struct Execution {
    /// The full planned command list; never mutated.
    pub commands: Vec<TaskCommand>,
    /// The per-command wall-clock timeout, for failure messages.
    pub timeout_secs: u64,
    /// One result per attempted command, in order.
    pub results: Vec<CommandResult>,
    /// Whether the run stopped at an unsuccessful result.
    pub halted: bool,
    /// The history of runner outcomes recorded so far.
    pub outcomes: Ghost<Seq<OutcomeView>>,
}

impl Execution {
    /// Well-formedness: the recorded results are exactly the fail-stop
    /// sequence of the recorded outcomes.
    pub open spec fn wf(self) -> bool {
        &&& self.outcomes@.len() == self.results@.len()
        &&& self.results@.len() <= self.commands@.len()
        &&& self.results@.map_values(|r: CommandResult| r@)
            == fail_stop(command_pairs(self.commands@), self.outcomes@, self.timeout_secs)
        &&& (!self.halted ==> forall|i: int| 0 <= i < self.results@.len()
            ==> self.results@[i]@.success)
        &&& (self.halted <==> self.results@.len() > 0 && !self.results@.last()@.success)
    }

    pub fn new(commands: Vec<TaskCommand>, timeout_secs: u64) -> (e: Self)
        ensures
            e.wf(),
            e.commands@ == commands@,
            e.timeout_secs == timeout_secs,
            e.results@.len() == 0,
            !e.halted,
            e.outcomes@ == Seq::<OutcomeView>::empty(),
    {
        let e = Execution {
            commands,
            timeout_secs,
            results: Vec::new(),
            halted: false,
            outcomes: Ghost(Seq::<OutcomeView>::empty()),
        };
        proof {
            assert(e.results@.map_values(|r: CommandResult| r@)
                =~= fail_stop(command_pairs(e.commands@), e.outcomes@, e.timeout_secs));
        }
        e
    }

    /// The next command to attempt: `Some` exactly while the run has
    /// neither halted at a failure nor exhausted the list.
    pub fn next_command(&self) -> (r: Option<&TaskCommand>)
        requires
            self.wf(),
        ensures
            match r {
                Some(c) => !self.halted && self.results@.len() < self.commands@.len()
                    && *c == self.commands@[self.results@.len() as int],
                None => self.halted || self.results@.len() == self.commands@.len(),
            },
    {
        if self.halted {
            None
        } else if self.results.len() < self.commands.len() {
            Some(&self.commands[self.results.len()])
        } else {
            None
        }
    }

    /// True once no further command will be attempted.
    pub fn is_done(&self) -> (r: bool)
        requires
            self.wf(),
        ensures
            r == (self.halted || self.results@.len() == self.commands@.len()),
    {
        self.halted || self.results.len() == self.commands.len()
    }

    /// Records the runner's outcome for the next pending command, appending
    /// its result and halting the run if that result is unsuccessful.
    pub fn record(&mut self, outcome: RunOutcome)
        requires
            old(self).wf(),
            !old(self).halted,
            old(self).results@.len() < old(self).commands@.len(),
        ensures
            final(self).wf(),
            final(self).commands@ == old(self).commands@,
            final(self).timeout_secs == old(self).timeout_secs,
            final(self).outcomes@ == old(self).outcomes@.push(outcome@),
            final(self).results@.len() == old(self).results@.len() + 1,
            final(self).results@.map_values(|r: CommandResult| r@)
                == old(self).results@.map_values(|r: CommandResult| r@).push(
                    step_result(
                        old(self).commands@[old(self).results@.len() as int].command@,
                        outcome@,
                        old(self).timeout_secs,
                    ),
                ),
            final(self).halted == !step_result(
                old(self).commands@[old(self).results@.len() as int].command@,
                outcome@,
                old(self).timeout_secs,
            ).success,
            final(self).results@[old(self).results@.len() as int]@ == step_result(
                old(self).commands@[old(self).results@.len() as int].command@,
                outcome@,
                old(self).timeout_secs,
            ),
            forall|i: int| 0 <= i < old(self).results@.len()
                ==> final(self).results@[i] == old(self).results@[i],
    {
        let k = self.results.len();
        let command = self.commands[k].command.clone();
        let ghost oview = outcome@;
        proof {
            assert(command_pairs(self.commands@)[k as int].0 == self.commands@[k as int].command@);
        }
        let result = match outcome {
            RunOutcome::Completed { exit_code, stdout, stderr } => {
                let success = match exit_code {
                    Some(c) => c == 0,
                    None => false,
                };
                CommandResult { command, success, exit_code, stdout, stderr }
            },
            RunOutcome::TimedOut => {
                let mut stderr = String::from_str("command timed out after ");
                push_decimal(&mut stderr, self.timeout_secs);
                stderr.append(" s: ");
                stderr.append(command.as_str());
                CommandResult {
                    command,
                    success: false,
                    exit_code: None,
                    stdout: String::new(),
                    stderr,
                }
            },
            RunOutcome::SpawnFailed => {
                let mut stderr = String::from_str("command failed to start: ");
                stderr.append(command.as_str());
                CommandResult {
                    command,
                    success: false,
                    exit_code: None,
                    stdout: String::new(),
                    stderr,
                }
            },
        };
        proof {
            assert(result@ =~= step_result(
                self.commands@[k as int].command@,
                oview,
                self.timeout_secs,
            ));
        }
        let success = result.success;
        proof {
            lemma_fail_stop_snoc(
                command_pairs(self.commands@),
                self.outcomes@,
                oview,
                self.timeout_secs,
            );
        }
        self.results.push(result);
        self.outcomes = Ghost(self.outcomes@.push(oview));
        if !success {
            self.halted = true;
        }
        proof {
            assert(self.results@.map_values(|r: CommandResult| r@)
                =~= fail_stop(command_pairs(self.commands@), self.outcomes@, self.timeout_secs));
        }
    }
}

} // verus!
