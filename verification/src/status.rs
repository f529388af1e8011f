//! Outcomes of the supervisor's operations and the work it hands to its driver.

use vstd::prelude::*;

verus! {

/// Identity of one instance of the child process. Every successful spawn
/// gets an epoch larger than all epochs before it.
#[derive(Clone, Copy, Debug, PartialEq, Eq, Structural)]
pub struct ProcessHandle {
    pub epoch: u64,
}

/// How an operation ended when it did not fail.
#[derive(Clone, Copy, Debug, PartialEq, Eq, Structural)]
pub enum Status {
    Started,
    AlreadyRunning,
    Terminated,
    NotRunning,
    Restarted,
}

/// Why an operation failed.
#[derive(Clone, Copy, Debug, PartialEq, Eq, Structural)]
pub enum SupervisorError {
    /// The operating system could not create the process.
    SpawnFailed,
    /// The termination signal could not be delivered.
    TerminationFailed,
}

/// What the supervisor answers to a request or to a report from its driver.
#[derive(Clone, Copy, Debug, PartialEq, Eq, Structural)]
pub enum Step {
    /// The operation is complete.
    Done(Status),
    /// The operation is complete and failed.
    Failed(SupervisorError),
    /// The driver must spawn the child process, which will carry this
    /// handle, and report the outcome with `spawn_finished`.
    Spawn(ProcessHandle),
    /// The driver must kill the process with this handle, wait until it is
    /// gone, and report the outcome with `kill_finished`.
    Kill(ProcessHandle),
    /// Another operation is in its critical section: nothing was changed,
    /// and the request has to wait.
    Busy,
    /// A report arrived for work that was not asked for: nothing was changed.
    Unexpected,
}

/// Which outside work the supervisor is waiting for.
#[derive(Clone, Copy, Debug, PartialEq, Eq, Structural)]
pub enum Phase {
    Idle,
    /// A spawn was asked for; `restart` tells whether it completes a restart.
    Spawning { restart: bool },
    /// A kill was asked for; `restart` tells whether a spawn follows it.
    Killing { restart: bool },
}

impl Status {
    /// The text of each status.
    pub open spec fn message_spec(self) -> Seq<char> {
        match self {
            Status::Started => "Server start successfully"@,
            Status::AlreadyRunning => "Starting Server"@,
            Status::Terminated => "Server Terminated"@,
            Status::NotRunning => "Attempt to terminate server failed: Server not running"@,
            Status::Restarted => "Successfully restarted the server"@,
        }
    }

    /// The message shown to the caller for this status.
    pub fn message(&self) -> (r: String)
        ensures
            r@ == self.message_spec(),
    {
        match self {
            Status::Started => "Server start successfully".to_owned(),
            Status::AlreadyRunning => "Starting Server".to_owned(),
            Status::Terminated => "Server Terminated".to_owned(),
            Status::NotRunning => "Attempt to terminate server failed: Server not running".to_owned(),
            Status::Restarted => "Successfully restarted the server".to_owned(),
        }
    }
}

impl SupervisorError {
    /// The text of each error.
    pub open spec fn message_spec(self) -> Seq<char> {
        match self {
            SupervisorError::SpawnFailed => "Server start failed"@,
            SupervisorError::TerminationFailed => "Some error happened when killing child process"@,
        }
    }

    /// The message shown to the caller for this error.
    pub fn message(&self) -> (r: String)
        ensures
            r@ == self.message_spec(),
    {
        match self {
            SupervisorError::SpawnFailed => "Server start failed".to_owned(),
            SupervisorError::TerminationFailed => "Some error happened when killing child process".to_owned(),
        }
    }
}

} // verus!
