//! The supervisor as a mathematical state machine: its state, and what each
//! request, report and output line does to it.

use vstd::prelude::*;
use crate::status::{Phase, ProcessHandle, Status, Step, SupervisorError};

verus! {

/// The state of a supervisor.
pub struct ManagerState {
    /// The live process, if one is running.
    pub child: Option<ProcessHandle>,
    /// The address that the live process has advertised, if it has.
    pub address: Option<Seq<char>>,
    /// How many processes were spawned so far: the epoch of the latest one.
    pub spawned: u64,
    /// The outside work that is under way.
    pub phase: Phase,
}

/// A request from a caller, or a report from the driver on work it was
/// asked to do.
pub enum Event {
    Start,
    Stop,
    Restart,
    /// The spawn that was asked for succeeded (`true`) or failed.
    SpawnFinished(bool),
    /// The kill that was asked for succeeded (`true`) or failed.
    KillFinished(bool),
}

impl Event {
    /// Whether the event is a caller's request, not a report.
    pub open spec fn is_request(self) -> bool {
        self is Start || self is Stop || self is Restart
    }
}

impl ManagerState {
    /// The state at startup: nothing runs, nothing was ever spawned.
    pub open spec fn initial() -> ManagerState {
        ManagerState { child: None, address: None, spawned: 0, phase: Phase::Idle }
    }

    /// What holds of every state that the operations can reach.
    pub open spec fn wf(self) -> bool {
        &&& self.address is Some ==> self.child is Some
        &&& self.child matches Some(h) ==> h.epoch == self.spawned && h.epoch >= 1
        &&& self.phase is Spawning ==> self.child is None && self.spawned < u64::MAX
        &&& self.phase is Killing ==> self.child is Some
    }

    /// A state between operations: valid, with no outside work under way.
    /// These are the states that a caller meets who holds the lock.
    pub open spec fn at_rest(self) -> bool {
        self.wf() && self.phase is Idle
    }

    /// Whether a process is running.
    pub open spec fn running(self) -> bool {
        self.child is Some
    }

    /// The handle that the next process will carry.
    pub open spec fn next_handle(self) -> ProcessHandle {
        ProcessHandle { epoch: (self.spawned + 1) as u64 }
    }

    /// This state with nothing running and no address.
    pub open spec fn stopped(self) -> ManagerState {
        ManagerState { child: None, address: None, phase: Phase::Idle, ..self }
    }

    /// Entering the spawn of a new process from a state in which none runs.
    /// Where every epoch is used up no process can be told from its
    /// predecessors, and the spawn fails before it is tried.
    pub open spec fn begin_spawn(self, restart: bool) -> (ManagerState, Step) {
        if self.spawned == u64::MAX {
            (self, Step::Failed(SupervisorError::SpawnFailed))
        } else {
            (ManagerState { phase: Phase::Spawning { restart }, ..self }, Step::Spawn(self.next_handle()))
        }
    }

    /// A request to start: refused while another operation is under way,
    /// answered at once where a process runs, else a spawn is asked for.
    pub open spec fn start(self) -> (ManagerState, Step) {
        if !(self.phase is Idle) {
            (self, Step::Busy)
        } else if self.child is Some {
            (self, Step::Done(Status::AlreadyRunning))
        } else {
            self.begin_spawn(false)
        }
    }

    /// A request to stop: refused while another operation is under way,
    /// answered at once where nothing runs, else a kill is asked for.
    pub open spec fn stop(self) -> (ManagerState, Step) {
        if !(self.phase is Idle) {
            (self, Step::Busy)
        } else {
            match self.child {
                None => (self, Step::Done(Status::NotRunning)),
                Some(h) => (ManagerState { phase: Phase::Killing { restart: false }, ..self }, Step::Kill(h)),
            }
        }
    }

    /// A request to restart: a stop, then a start. Where nothing runs the
    /// stop has nothing to do and the spawn is asked for at once.
    pub open spec fn restart(self) -> (ManagerState, Step) {
        if !(self.phase is Idle) {
            (self, Step::Busy)
        } else {
            match self.child {
                None => self.begin_spawn(true),
                Some(h) => (ManagerState { phase: Phase::Killing { restart: true }, ..self }, Step::Kill(h)),
            }
        }
    }

    /// The report on a spawn. Success makes the new process the live one,
    /// with no address yet; failure leaves nothing running.
    pub open spec fn spawn_finished(self, spawned: bool) -> (ManagerState, Step) {
        match self.phase {
            Phase::Spawning { restart } => {
                if spawned {
                    (
                        ManagerState {
                            child: Some(self.next_handle()),
                            address: None,
                            spawned: self.next_handle().epoch,
                            phase: Phase::Idle,
                        },
                        Step::Done(if restart { Status::Restarted } else { Status::Started }),
                    )
                } else {
                    (ManagerState { phase: Phase::Idle, ..self }, Step::Failed(SupervisorError::SpawnFailed))
                }
            },
            _ => (self, Step::Unexpected),
        }
    }

    /// The report on a kill. Success clears the handle and the address, and
    /// within a restart goes on to the spawn; failure leaves the handle in
    /// place, since the process may still be there, and ends the operation.
    pub open spec fn kill_finished(self, killed: bool) -> (ManagerState, Step) {
        match self.phase {
            Phase::Killing { restart } => {
                if !killed {
                    (ManagerState { phase: Phase::Idle, ..self }, Step::Failed(SupervisorError::TerminationFailed))
                } else if restart {
                    self.stopped().begin_spawn(true)
                } else {
                    (self.stopped(), Step::Done(Status::Terminated))
                }
            },
            _ => (self, Step::Unexpected),
        }
    }

    /// The state after an event, and the answer to it.
    pub open spec fn step(self, event: Event) -> (ManagerState, Step) {
        match event {
            Event::Start => self.start(),
            Event::Stop => self.stop(),
            Event::Restart => self.restart(),
            Event::SpawnFinished(ok) => self.spawn_finished(ok),
            Event::KillFinished(ok) => self.kill_finished(ok),
        }
    }

    /// A whole operation as the holder of the lock carries it out: the
    /// request, then the kill if one is asked for, then the spawn if one is
    /// asked for. `killed` and `spawned` are the outcomes of that work.
    pub open spec fn carry_out(self, request: Event, killed: bool, spawned: bool) -> (
        ManagerState,
        Step,
    ) {
        let (asked, first) = self.step(request);
        let (after_kill, second) = if first is Kill {
            asked.kill_finished(killed)
        } else {
            (asked, first)
        };
        if second is Spawn {
            after_kill.spawn_finished(spawned)
        } else {
            (after_kill, second)
        }
    }

    /// Whether a line tagged with `epoch` comes from the live process.
    pub open spec fn is_live(self, epoch: u64) -> bool {
        self.child matches Some(h) && h.epoch == epoch
    }

    /// What an output line does: `capture` is the address that the readiness
    /// pattern found in it. The first address from the live process is
    /// published and announced; everything else is discarded.
    pub open spec fn observe(self, epoch: u64, capture: Option<Seq<char>>) -> (ManagerState, Option<Seq<char>>) {
        if self.is_live(epoch) && self.address is None && capture is Some {
            (ManagerState { address: capture, ..self }, capture)
        } else {
            (self, None)
        }
    }
}

} // verus!
