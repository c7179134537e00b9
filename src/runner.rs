use vstd::prelude::*;

use crate::placeholders::PlatformPolicy;
use crate::types::{BackendError, CoreEvent, ExitState};

verus! {

/// A built-in action that a step may name.
#[derive(Clone, Copy, Debug, PartialEq, Eq, Structural)]
pub enum BuiltinAction {
    /// Packaging of files; it has no effect yet.
    Copy,
    /// Shutting the host down.
    Shutdown,
}

/// The built-in action that a step name stands for, or `BuiltinFailed` naming it.
pub fn process(step_name: &str) -> (r: Result<BuiltinAction, BackendError>)
    ensures
        step_name@ == "COPY"@ ==> r == Ok::<BuiltinAction, BackendError>(BuiltinAction::Copy),
        step_name@ == "SHUTDOWN"@ ==> r == Ok::<BuiltinAction, BackendError>(
            BuiltinAction::Shutdown,
        ),
        step_name@ != "COPY"@ && step_name@ != "SHUTDOWN"@ ==> (r matches Err(
            BackendError::BuiltinFailed(n),
        ) && n@ == step_name@),
{
    proof {
        reveal_strlit("COPY");
        reveal_strlit("SHUTDOWN");
        assert("COPY"@[0] != "SHUTDOWN"@[0]);
    }
    if crate::text::str_eq(step_name, "COPY") {
        Ok(BuiltinAction::Copy)
    } else if crate::text::str_eq(step_name, "SHUTDOWN") {
        Ok(BuiltinAction::Shutdown)
    } else {
        Err(BackendError::BuiltinFailed(step_name.to_owned()))
    }
}

/// The result of a built-in step from the result of performing its action.
pub fn builtin_outcome(step_name: &str, performed: Result<(), String>) -> (r: Result<
    (),
    BackendError,
>)
    ensures
        performed is Ok ==> r is Ok,
        performed is Err ==> (r matches Err(BackendError::BuiltinFailed(n)) && n@ == step_name@),
{
    match performed {
        Ok(()) => Ok(()),
        Err(_) => Err(BackendError::BuiltinFailed(step_name.to_owned())),
    }
}

/// A command line: program and arguments.
#[derive(Clone, Debug)]
pub struct CommandLine {
    pub program: String,
    pub args: Vec<String>,
}

/// The command that shuts the host down under `policy`, or why there is none.
pub fn system_shutdown(policy: PlatformPolicy) -> (r: Result<CommandLine, String>)
    ensures
        policy == PlatformPolicy::Windows ==> (r matches Ok(c) && c.program@ == "shutdown"@
            && c.args@.len() == 4 && c.args@[0]@ == "/s"@ && c.args@[1]@ == "/f"@ && c.args@[2]@
            == "/t"@ && c.args@[3]@ == "0"@),
        policy == PlatformPolicy::UnixLike ==> (r matches Ok(c) && c.program@ == "shutdown"@
            && c.args@.len() == 2 && c.args@[0]@ == "-h"@ && c.args@[1]@ == "now"@),
        policy == PlatformPolicy::Unsupported ==> r is Err,
{
    match policy {
        PlatformPolicy::Windows => {
            let mut args: Vec<String> = Vec::new();
            args.push("/s".to_owned());
            args.push("/f".to_owned());
            args.push("/t".to_owned());
            args.push("0".to_owned());
            Ok(CommandLine { program: "shutdown".to_owned(), args })
        },
        PlatformPolicy::UnixLike => {
            let mut args: Vec<String> = Vec::new();
            args.push("-h".to_owned());
            args.push("now".to_owned());
            Ok(CommandLine { program: "shutdown".to_owned(), args })
        },
        PlatformPolicy::Unsupported => Err(
            "Shutdown is not supported on this operating system with this program.".to_owned(),
        ),
    }
}

/// The error for a process that could not be spawned: `CommandNotFound` naming the executable
/// when the operating system could not find it, `ProcessSpawnError` otherwise.
pub fn spawn_failure(executable: &str, not_found: bool, message: &str) -> (r: BackendError)
    ensures
        not_found ==> (r matches BackendError::CommandNotFound(e) && e@ == executable@),
        !not_found ==> (r matches BackendError::ProcessSpawnError(m) && m@ == message@),
{
    if not_found {
        BackendError::CommandNotFound(executable.to_owned())
    } else {
        BackendError::ProcessSpawnError(message.to_owned())
    }
}

/// What one status poll of a running child reported.
#[derive(Clone, Debug)]
pub enum PollResult {
    Exited(ExitState),
    StillRunning,
    /// Polling failed, with the error's text.
    Failed(String),
}

/// What the process runner does after one poll.
#[derive(Debug)]
pub enum RunnerDecision {
    /// Sleep for the poll interval and poll again.
    Wait,
    /// Stop polling, killing the child first when `kill` is set, and return `outcome` once the
    /// output readers have drained.
    Stop { kill: bool, outcome: Result<(), BackendError> },
}

/// The outcome of a process that exited with `status`.
pub open spec fn exit_outcome_spec(step_name: Seq<char>, status: ExitState, r: Result<(), BackendError>) -> bool {
    if status.code == Some(0i32) {
        r is Ok
    } else {
        r matches Err(BackendError::StepFailed(n, s)) && n@ == step_name && s == status
    }
}

/// Decides the runner's next move. A set cancellation flag wins over everything: the child is
/// killed and the step ends `Cancelled`. Otherwise an exited child ends the step with success or
/// `StepFailed`, a failed poll ends it with `ProcessWaitError`, and a running child is waited for.
pub fn next_runner_decision(step_name: &str, cancelled: bool, poll: PollResult) -> (r: RunnerDecision)
    ensures
        cancelled ==> (r matches RunnerDecision::Stop { kill, outcome } && kill && outcome matches Err(
            BackendError::Cancelled,
        )),
        r matches RunnerDecision::Stop { kill, .. } && kill ==> cancelled,
        !cancelled ==> match poll {
            PollResult::Exited(status) => r matches RunnerDecision::Stop { kill, outcome } && !kill
                && exit_outcome_spec(step_name@, status, outcome),
            PollResult::StillRunning => r is Wait,
            PollResult::Failed(m) => r matches RunnerDecision::Stop { kill, outcome } && !kill
                && (outcome matches Err(BackendError::ProcessWaitError(e)) && e == m),
        },
{
    if cancelled {
        return RunnerDecision::Stop { kill: true, outcome: Err(BackendError::Cancelled) };
    }
    match poll {
        PollResult::Exited(status) => {
            if status.success() {
                RunnerDecision::Stop { kill: false, outcome: Ok(()) }
            } else {
                RunnerDecision::Stop {
                    kill: false,
                    outcome: Err(BackendError::StepFailed(step_name.to_owned(), status)),
                }
            }
        },
        PollResult::StillRunning => RunnerDecision::Wait,
        PollResult::Failed(m) => RunnerDecision::Stop {
            kill: false,
            outcome: Err(BackendError::ProcessWaitError(m)),
        },
    }
}

/// The event for one line read from a child's output: `StepErr` for standard error, `StepLog`
/// for standard output.
pub fn stream_line_event(
    map_id: usize,
    map_name: &str,
    step_name: &str,
    line: String,
    is_err: bool,
) -> (r: CoreEvent)
    ensures
        is_err ==> (r matches CoreEvent::StepErr(i, m, s, l) && i == map_id && m@ == map_name@
            && s@ == step_name@ && l == line),
        !is_err ==> (r matches CoreEvent::StepLog(i, m, s, l) && i == map_id && m@ == map_name@
            && s@ == step_name@ && l == line),
{
    if is_err {
        CoreEvent::StepErr(map_id, map_name.to_owned(), step_name.to_owned(), line)
    } else {
        CoreEvent::StepLog(map_id, map_name.to_owned(), step_name.to_owned(), line)
    }
}

} // verus!
