use vstd::prelude::*;

verus! {

/// How an external process ended: its exit code, absent when a signal ended it.
#[derive(Clone, Copy, Debug, PartialEq, Eq, Structural)]
pub struct ExitState {
    pub code: Option<i32>,
}

impl ExitState {
    /// Successful termination means a zero exit code.
    pub open spec fn spec_success(&self) -> bool {
        self.code == Some(0i32)
    }

    /// Whether the process ended successfully.
    #[verifier::when_used_as_spec(spec_success)]
    pub fn success(&self) -> (r: bool)
        ensures
            r == self.spec_success(),
    {
        match self.code {
            Some(c) => c == 0,
            None => false,
        }
    }
}

/// Errors of the compilation engine.
#[derive(Clone, Debug)]
pub enum BackendError {
    IoError(String),
    /// The operating system could not create the process.
    ProcessSpawnError(String),
    /// Polling a spawned process for its status failed.
    ProcessWaitError(String),
    /// No executable is configured, or the operating system could not find it.
    CommandNotFound(String),
    /// The user asked to stop.
    Cancelled,
    /// The process ran and reported failure: step name and exit state.
    StepFailed(String, ExitState),
    /// A built-in action failed or is unknown: its name.
    BuiltinFailed(String),
    Unknown,
}

impl BackendError {
    /// A copy of this error.
    pub fn duplicate(&self) -> (r: BackendError)
        ensures
            r == *self,
    {
        match self {
            BackendError::IoError(m) => BackendError::IoError(m.clone()),
            BackendError::ProcessSpawnError(m) => BackendError::ProcessSpawnError(m.clone()),
            BackendError::ProcessWaitError(m) => BackendError::ProcessWaitError(m.clone()),
            BackendError::CommandNotFound(m) => BackendError::CommandNotFound(m.clone()),
            BackendError::Cancelled => BackendError::Cancelled,
            BackendError::StepFailed(m, s) => BackendError::StepFailed(m.clone(), *s),
            BackendError::BuiltinFailed(m) => BackendError::BuiltinFailed(m.clone()),
            BackendError::Unknown => BackendError::Unknown,
        }
    }
}

/// A copy of a step or map result.
pub fn duplicate_result(r: &Result<(), BackendError>) -> (c: Result<(), BackendError>)
    ensures
        c == *r,
{
    match r {
        Ok(u) => Ok(*u),
        Err(e) => Err(e.duplicate()),
    }
}

/// Progress events of a batch, tagged with map index and names so that concurrent maps can be
/// told apart.
#[derive(Debug)]
pub enum CoreEvent {
    BatchStarted,
    /// Map index and map name.
    MapStarted(usize, String),
    /// Map index, map name and step name.
    StepStarted(usize, String, String),
    /// A line of standard output: map index, map name, step name and the line.
    StepLog(usize, String, String, String),
    StepWarn(usize, String, String, String),
    /// A line of standard error: map index, map name, step name and the line.
    StepErr(usize, String, String, String),
    StepFinished(usize, String, String),
    /// Map index, map name and the map's result.
    MapFinished(usize, String, Result<(), BackendError>),
    BatchCompleted(Result<(), BackendError>),
    BatchCancelled,
    CancellationRequested,
}

} // verus!
