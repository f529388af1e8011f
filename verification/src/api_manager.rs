//! The supervisor: owner of the process handle and of the published address.

use vstd::prelude::*;
use crate::model::ManagerState;
use crate::output::OutputLine;
use crate::pattern::{text_of, ReadinessPattern};
use crate::status::{Phase, ProcessHandle, Status, Step, SupervisorError};

verus! {

/// Supervises one child process. At most one instance runs at a time.
///
/// A request (`start_backend`, `terminate_backend`, `restart_backend`) is
/// answered with a `Step`. Where the step asks for outside work, the driver
/// does it under the same lock and reports with `spawn_finished` or
/// `kill_finished`; until then other requests are answered `Step::Busy`.
pub struct APIManager {
    child: Option<ProcessHandle>,
    address: Option<String>,
    spawned: u64,
    phase: Phase,
    pattern: ReadinessPattern,
}

impl View for APIManager {
    type V = ManagerState;

    closed spec fn view(&self) -> ManagerState {
        ManagerState {
            child: self.child,
            address: text_of(self.address),
            spawned: self.spawned,
            phase: self.phase,
        }
    }
}

impl APIManager {
    /// The readiness pattern that this supervisor applies to output lines.
    pub closed spec fn pattern(&self) -> ReadinessPattern {
        self.pattern
    }

    /// The validity of a supervisor: its state is one that the operations
    /// can reach.
    pub open spec fn wf(&self) -> bool {
        self@.wf()
    }

    /// A supervisor with nothing running and no address.
    pub fn new(pattern: ReadinessPattern) -> (m: APIManager)
        ensures
            m@ == ManagerState::initial(),
            m.pattern() == pattern,
            m.wf(),
    {
        APIManager { child: None, address: None, spawned: 0, phase: Phase::Idle, pattern }
    }

    /// Enters the spawn of a new process; nothing is running.
    fn begin_spawn(&mut self, restart: bool) -> (step: Step)
        requires
            old(self).wf(),
            old(self)@.child is None,
        ensures
            (final(self)@, step) == old(self)@.begin_spawn(restart),
            final(self).pattern() == old(self).pattern(),
    {
        if self.spawned == u64::MAX {
            Step::Failed(SupervisorError::SpawnFailed)
        } else {
            self.phase = Phase::Spawning { restart };
            Step::Spawn(ProcessHandle { epoch: self.spawned + 1 })
        }
    }

    /// Starts the process unless it runs already.
    pub fn start_backend(&mut self) -> (step: Step)
        requires
            old(self).wf(),
        ensures
            (final(self)@, step) == old(self)@.start(),
            final(self).pattern() == old(self).pattern(),
            final(self).wf(),
    {
        match self.phase {
            Phase::Idle => {
                if self.child.is_some() {
                    Step::Done(Status::AlreadyRunning)
                } else {
                    self.begin_spawn(false)
                }
            },
            _ => Step::Busy,
        }
    }

    /// Stops the process if one runs.
    pub fn terminate_backend(&mut self) -> (step: Step)
        requires
            old(self).wf(),
        ensures
            (final(self)@, step) == old(self)@.stop(),
            final(self).pattern() == old(self).pattern(),
            final(self).wf(),
    {
        match self.phase {
            Phase::Idle => {
                match self.child {
                    None => Step::Done(Status::NotRunning),
                    Some(h) => {
                        self.phase = Phase::Killing { restart: false };
                        Step::Kill(h)
                    },
                }
            },
            _ => Step::Busy,
        }
    }

    /// Stops the process if one runs, then starts a new one.
    pub fn restart_backend(&mut self) -> (step: Step)
        requires
            old(self).wf(),
        ensures
            (final(self)@, step) == old(self)@.restart(),
            final(self).pattern() == old(self).pattern(),
            final(self).wf(),
    {
        match self.phase {
            Phase::Idle => {
                match self.child {
                    None => self.begin_spawn(true),
                    Some(h) => {
                        self.phase = Phase::Killing { restart: true };
                        Step::Kill(h)
                    },
                }
            },
            _ => Step::Busy,
        }
    }

    /// Takes the driver's report on the spawn that was asked for.
    pub fn spawn_finished(&mut self, spawned: bool) -> (step: Step)
        requires
            old(self).wf(),
        ensures
            (final(self)@, step) == old(self)@.spawn_finished(spawned),
            final(self).pattern() == old(self).pattern(),
            final(self).wf(),
    {
        match self.phase {
            Phase::Spawning { restart } => {
                self.phase = Phase::Idle;
                if spawned {
                    let epoch: u64 = self.spawned + 1;
                    self.spawned = epoch;
                    self.child = Some(ProcessHandle { epoch });
                    self.address = None;
                    Step::Done(if restart { Status::Restarted } else { Status::Started })
                } else {
                    Step::Failed(SupervisorError::SpawnFailed)
                }
            },
            _ => Step::Unexpected,
        }
    }

    /// Takes the driver's report on the kill that was asked for.
    pub fn kill_finished(&mut self, killed: bool) -> (step: Step)
        requires
            old(self).wf(),
        ensures
            (final(self)@, step) == old(self)@.kill_finished(killed),
            final(self).pattern() == old(self).pattern(),
            final(self).wf(),
    {
        match self.phase {
            Phase::Killing { restart } => {
                self.phase = Phase::Idle;
                if !killed {
                    Step::Failed(SupervisorError::TerminationFailed)
                } else {
                    self.child = None;
                    self.address = None;
                    if restart {
                        self.begin_spawn(true)
                    } else {
                        Step::Done(Status::Terminated)
                    }
                }
            },
            _ => Step::Unexpected,
        }
    }

    /// Takes what the readiness pattern found in a line tagged with `epoch`.
    /// Returns the address to announce as ready, which is then already
    /// published, or `None` where the line changes nothing.
    pub fn publish(&mut self, epoch: u64, capture: Option<String>) -> (ready: Option<String>)
        requires
            old(self).wf(),
        ensures
            (final(self)@, text_of(ready)) == old(self)@.observe(epoch, text_of(capture)),
            final(self).pattern() == old(self).pattern(),
            final(self).wf(),
    {
        let live = match self.child {
            Some(h) => h.epoch == epoch,
            None => false,
        };
        if live && self.address.is_none() {
            match capture {
                Some(address) => {
                    let ready = address.clone();
                    self.address = Some(address);
                    Some(ready)
                },
                None => None,
            }
        } else {
            None
        }
    }

    /// Watches one line of output: applies the readiness pattern and
    /// publishes the first address that the live process advertises.
    pub fn on_output_line(&mut self, line: &OutputLine) -> (ready: Option<String>)
        requires
            old(self).wf(),
        ensures
            (final(self)@, text_of(ready)) == old(self)@.observe(
                line.epoch,
                old(self).pattern().capture(line.text@),
            ),
            final(self).pattern() == old(self).pattern(),
            final(self).wf(),
    {
        let capture = self.pattern.extract(line.text.as_str());
        self.publish(line.epoch, capture)
    }

    /// Whether a process is running.
    pub fn is_running(&self) -> (r: bool)
        ensures
            r == self@.running(),
    {
        self.child.is_some()
    }

    /// The handle of the running process, if there is one.
    pub fn child(&self) -> (r: Option<ProcessHandle>)
        ensures
            r == self@.child,
    {
        self.child
    }

    /// The outside work that the supervisor is waiting for.
    pub fn phase(&self) -> (r: Phase)
        ensures
            r == self@.phase,
    {
        self.phase
    }

    /// The address that the live process has advertised, if it has.
    pub fn query_address(&self) -> (r: Option<String>)
        ensures
            text_of(r) == self@.address,
    {
        match &self.address {
            Some(a) => Some(a.clone()),
            None => None,
        }
    }
}

} // verus!
