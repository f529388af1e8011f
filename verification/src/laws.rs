//! Laws of the supervisor's state machine.

use vstd::prelude::*;
use crate::model::{Event, ManagerState};
use crate::status::{Phase, Status, Step, SupervisorError};

verus! {

/// The state after a sequence of events, taken in order.
pub open spec fn state_after(s: ManagerState, events: Seq<Event>) -> ManagerState
    decreases events.len(),
{
    if events.len() == 0 {
        s
    } else {
        state_after(s.step(events[0]).0, events.drop_first())
    }
}

/// How often the driver is asked to spawn a process while a sequence of
/// events is taken in order.
pub open spec fn spawns_asked(s: ManagerState, events: Seq<Event>) -> nat
    decreases events.len(),
{
    if events.len() == 0 {
        0
    } else {
        let asked: nat = if s.step(events[0]).1 is Spawn { 1 } else { 0 };
        asked + spawns_asked(s.step(events[0]).0, events.drop_first())
    }
}

/// A sequence in which callers only ask to start, and every spawn that is
/// asked for succeeds.
pub open spec fn only_starts(events: Seq<Event>) -> bool {
    forall|i: int| 0 <= i < events.len() ==> events[i] is Start || events[i] == Event::SpawnFinished(true)
}

/// Every event leads from a valid state to a valid state.
pub proof fn law_step_keeps_validity(s: ManagerState, event: Event)
    requires
        s.wf(),
    ensures
        s.step(event).0.wf(),
{
}

/// Every output line leads from a valid state to a valid state: an address
/// is only ever published for a running process.
pub proof fn law_observe_keeps_validity(s: ManagerState, epoch: u64, capture: Option<Seq<char>>)
    requires
        s.wf(),
    ensures
        s.observe(epoch, capture).0.wf(),
        s.observe(epoch, capture).0.phase == s.phase,
        s.observe(epoch, capture).0.address is Some ==> s.observe(epoch, capture).0.running(),
{
}

/// Every sequence of events leads from a valid state to a valid state.
pub proof fn law_events_keep_validity(s: ManagerState, events: Seq<Event>)
    requires
        s.wf(),
    ensures
        state_after(s, events).wf(),
    decreases events.len(),
{
    if events.len() > 0 {
        law_step_keeps_validity(s, events[0]);
        law_events_keep_validity(s.step(events[0]).0, events.drop_first());
    }
}

/// The startup state is a state at rest.
pub proof fn law_initial_state_is_at_rest()
    ensures
        ManagerState::initial().at_rest(),
        !ManagerState::initial().running(),
        ManagerState::initial().address is None,
{
}

/// Every operation that is carried out from a state at rest ends, with
/// success or failure, in a state at rest, whatever the outside work
/// brought. So a caller who holds the lock for the whole operation hands
/// on a state at rest, and every operation starts from one.
pub proof fn law_operations_end_at_rest(
    s: ManagerState,
    request: Event,
    killed: bool,
    spawned: bool,
)
    requires
        s.at_rest(),
        request.is_request(),
    ensures
        s.carry_out(request, killed, spawned).0.at_rest(),
        s.carry_out(request, killed, spawned).1 is Done || s.carry_out(request, killed, spawned).1 is Failed,
{
}

/// In every valid state, a start asks for a spawn exactly where the
/// supervisor is at rest, nothing runs and an epoch is left. It names the
/// handle of the new process and changes nothing but the phase.
pub proof fn law_start_asks_for_spawn(s: ManagerState)
    requires
        s.wf(),
    ensures
        s.start().1 is Spawn <==> s.phase is Idle && !s.running() && s.spawned < u64::MAX,
        s.start().1 is Spawn ==> s.start() == (
            ManagerState { phase: Phase::Spawning { restart: false }, ..s },
            Step::Spawn(s.next_handle()),
        ),
{
}

/// In every valid state with a spawn under way, the spawn's success makes
/// the process with the handle that was named the running one, with no
/// address yet, and is answered `Started`, or `Restarted` within a restart.
pub proof fn law_spawn_success_runs(s: ManagerState)
    requires
        s.wf(),
        s.phase is Spawning,
    ensures
        ({
            let (started, answer) = s.spawn_finished(true);
            &&& answer == Step::Done(
                if s.phase->Spawning_restart {
                    Status::Restarted
                } else {
                    Status::Started
                },
            )
            &&& started.at_rest()
            &&& started.child == Some(s.next_handle())
            &&& started.address is None
        }),
{
}

/// In every valid state with a process running, a start asks for no spawn
/// and changes nothing: it is answered `AlreadyRunning`, or `Busy` while an
/// operation is under way.
pub proof fn law_start_while_running(s: ManagerState)
    requires
        s.wf(),
        s.running(),
    ensures
        s.start().0 == s,
        s.start().1 == if s.phase is Idle {
            Step::Done(Status::AlreadyRunning)
        } else {
            Step::Busy
        },
{
}

/// A start while nothing runs, carried out with a spawn that succeeds, ends
/// with the process running under the next handle and is answered
/// `Started`. A second start then changes nothing, asks for no spawn and is
/// answered `AlreadyRunning`, whatever the outside work would bring.
pub proof fn law_start_then_start(s: ManagerState, killed: bool, spawned: bool)
    requires
        s.at_rest(),
        !s.running(),
        s.spawned < u64::MAX,
    ensures
        ({
            let (started, answer) = s.carry_out(Event::Start, killed, true);
            &&& s.start().1 == Step::Spawn(s.next_handle())
            &&& answer == Step::Done(Status::Started)
            &&& started.at_rest()
            &&& started.child == Some(s.next_handle())
            &&& started.start() == (started, Step::Done(Status::AlreadyRunning))
            &&& started.carry_out(Event::Start, killed, spawned) == (
                started,
                Step::Done(Status::AlreadyRunning),
            )
        }),
{
}

/// A start whose spawn fails is answered `SpawnFailed` and leaves the state
/// as it was: nothing runs.
pub proof fn law_failed_spawn_changes_nothing(s: ManagerState, killed: bool)
    requires
        s.at_rest(),
        !s.running(),
    ensures
        s.carry_out(Event::Start, killed, false) == (s, Step::Failed(SupervisorError::SpawnFailed)),
{
}

/// In every valid state in which nothing runs, a stop changes nothing, asks
/// for no outside work and is no error: it is answered `NotRunning`, or
/// `Busy` while a spawn is under way.
pub proof fn law_stop_when_not_running(s: ManagerState)
    requires
        s.wf(),
        !s.running(),
    ensures
        s.stop().0 == s,
        s.stop().1 == if s.phase is Idle {
            Step::Done(Status::NotRunning)
        } else {
            Step::Busy
        },
{
}

/// A stop while nothing runs, carried out from a state at rest, changes
/// nothing and is answered `NotRunning`, whatever the outside work would
/// bring.
pub proof fn law_stop_at_rest_when_not_running(s: ManagerState, killed: bool, spawned: bool)
    requires
        s.at_rest(),
        !s.running(),
    ensures
        s.carry_out(Event::Stop, killed, spawned) == (s, Step::Done(Status::NotRunning)),
{
}

/// In every valid state, a stop or a restart asks for a kill exactly where
/// the supervisor is at rest and a process runs, and the kill is that of
/// the running process.
pub proof fn law_kill_is_asked_of_the_running_process(s: ManagerState)
    requires
        s.wf(),
    ensures
        s.stop().1 is Kill <==> s.phase is Idle && s.running(),
        s.restart().1 is Kill <==> s.phase is Idle && s.running(),
        s.stop().1 is Kill ==> s.stop().1 == Step::Kill(s.child->0),
        s.restart().1 is Kill ==> s.restart().1 == Step::Kill(s.child->0),
{
}

/// After a stop that did not fail no address is available, whatever was
/// published before, and nothing runs.
pub proof fn law_no_address_after_stop(s: ManagerState, killed: bool, spawned: bool)
    requires
        s.at_rest(),
    ensures
        ({
            let (stopped, answer) = s.carry_out(Event::Stop, killed, spawned);
            &&& answer is Done ==> stopped.address is None && !stopped.running()
            &&& answer is Done <==> !s.running() || killed
            &&& s.running() ==> s.stop().1 == Step::Kill(s.child->0)
            &&& s.running() && killed ==> answer == Step::Done(Status::Terminated)
        }),
{
}

/// In every valid state with a kill under way, the kill's success clears
/// the handle and the address.
pub proof fn law_kill_success_clears(s: ManagerState)
    requires
        s.wf(),
        s.phase is Killing,
    ensures
        !s.kill_finished(true).0.running(),
        s.kill_finished(true).0.address is None,
{
}

/// A stop whose kill fails is answered `TerminationFailed` and leaves the
/// handle and the address in place.
pub proof fn law_failed_kill_changes_nothing(s: ManagerState, spawned: bool)
    requires
        s.at_rest(),
        s.running(),
    ensures
        s.carry_out(Event::Stop, false, spawned) == (
            s,
            Step::Failed(SupervisorError::TerminationFailed),
        ),
{
}

/// A line in which the readiness pattern finds nothing changes nothing.
pub proof fn law_non_matching_line(s: ManagerState, epoch: u64)
    ensures
        s.observe(epoch, None) == (s, None::<Seq<char>>),
{
}

/// A line that does not come from the live process changes nothing,
/// whatever it holds.
pub proof fn law_stale_line(s: ManagerState, epoch: u64, capture: Option<Seq<char>>)
    requires
        !s.is_live(epoch),
    ensures
        s.observe(epoch, capture) == (s, None::<Seq<char>>),
{
}

/// The first readiness line of the live process publishes its address and
/// announces it.
pub proof fn law_first_match_is_published(s: ManagerState, epoch: u64, address: Seq<char>)
    requires
        s.is_live(epoch),
        s.address is None,
    ensures
        s.observe(epoch, Some(address)) == (
            ManagerState { address: Some(address), ..s },
            Some(address),
        ),
{
}

/// The first match wins: once an address is published, no line changes it
/// or is announced.
pub proof fn law_first_match_wins(s: ManagerState, epoch: u64, capture: Option<Seq<char>>)
    requires
        s.address is Some,
    ensures
        s.observe(epoch, capture) == (s, None::<Seq<char>>),
{
}

/// Whenever a line makes the supervisor announce an address, that address
/// is the published one by then.
pub proof fn law_address_is_published_before_it_is_announced(
    s: ManagerState,
    epoch: u64,
    capture: Option<Seq<char>>,
)
    ensures
        s.observe(epoch, capture).1 is Some ==> s.observe(epoch, capture).0.address == s.observe(
            epoch,
            capture,
        ).1,
{
}

/// A restart of a running process asks for one kill, of the old process,
/// and then for one spawn, with nothing running in between. Carried out
/// with both succeeding it is answered `Restarted`; the new process has a
/// later epoch than the old one and no address.
pub proof fn law_restart_replaces_the_instance(s: ManagerState)
    requires
        s.at_rest(),
        s.running(),
        s.spawned < u64::MAX,
    ensures
        ({
            let old_handle = s.child->0;
            let (killing, first) = s.restart();
            let (spawning, second) = killing.kill_finished(true);
            let (restarted, answer) = s.carry_out(Event::Restart, true, true);
            &&& first == Step::Kill(old_handle)
            &&& killing.child == s.child
            &&& second == Step::Spawn(s.next_handle())
            &&& !spawning.running()
            &&& spawning.address is None
            &&& answer == Step::Done(Status::Restarted)
            &&& restarted.at_rest()
            &&& restarted.child == Some(s.next_handle())
            &&& restarted.child->0.epoch > old_handle.epoch
            &&& restarted.address is None
        }),
{
}

/// After a restart only a line of the new process can publish an address:
/// a line of the old process, or of any other epoch, changes nothing, and
/// the first readiness line of the new process publishes exactly its own
/// address.
pub proof fn law_restart_discards_old_instance(
    s: ManagerState,
    epoch: u64,
    capture: Option<Seq<char>>,
)
    requires
        s.at_rest(),
        s.running(),
        s.spawned < u64::MAX,
    ensures
        ({
            let restarted = s.carry_out(Event::Restart, true, true).0;
            &&& restarted.observe(s.child->0.epoch, capture) == (restarted, None::<Seq<char>>)
            &&& epoch != s.next_handle().epoch ==> restarted.observe(epoch, capture) == (
                restarted,
                None::<Seq<char>>,
            )
            &&& capture is Some ==> restarted.observe(s.next_handle().epoch, capture) == (
                ManagerState { address: capture, ..restarted },
                capture,
            )
        }),
{
}

/// A restart while nothing runs has nothing to stop: it asks for the spawn
/// at once and, where that succeeds, is answered `Restarted`.
pub proof fn law_restart_when_not_running(s: ManagerState, killed: bool)
    requires
        s.at_rest(),
        !s.running(),
        s.spawned < u64::MAX,
    ensures
        ({
            let (restarted, answer) = s.carry_out(Event::Restart, killed, true);
            &&& s.restart().1 == Step::Spawn(s.next_handle())
            &&& answer == Step::Done(Status::Restarted)
            &&& restarted.child == Some(s.next_handle())
        }),
{
}

/// A restart whose kill fails ends there with `TerminationFailed`: no spawn
/// is asked for, and the handle stays in place.
pub proof fn law_restart_stops_at_failed_kill(s: ManagerState, spawned: bool)
    requires
        s.at_rest(),
        s.running(),
    ensures
        s.restart().0.kill_finished(false).1 == Step::Failed(SupervisorError::TerminationFailed),
        s.carry_out(Event::Restart, false, spawned) == (
            s,
            Step::Failed(SupervisorError::TerminationFailed),
        ),
{
}

/// A restart whose spawn fails after the kill succeeded ends stopped, with
/// `SpawnFailed`.
pub proof fn law_restart_with_failed_spawn_ends_stopped(s: ManagerState)
    requires
        s.at_rest(),
        s.running(),
    ensures
        s.carry_out(Event::Restart, true, false) == (
            s.stopped(),
            Step::Failed(SupervisorError::SpawnFailed),
        ),
{
}

/// While an operation waits for its outside work, every request is answered
/// `Busy` and changes nothing.
pub proof fn law_requests_exclude_each_other(s: ManagerState, request: Event)
    requires
        !(s.phase is Idle),
        request.is_request(),
    ensures
        s.step(request) == (s, Step::Busy),
{
}

/// However many callers ask to start, and in whatever order their requests
/// and the spawn's success arrive, at most one spawn is asked for; none
/// where a process runs or a spawn is under way already.
pub proof fn law_starts_spawn_at_most_once(s: ManagerState, events: Seq<Event>)
    requires
        s.wf(),
        only_starts(events),
    ensures
        spawns_asked(s, events) <= 1,
        s.running() || s.phase is Spawning ==> spawns_asked(s, events) == 0,
    decreases events.len(),
{
    if events.len() > 0 {
        let next = s.step(events[0]).0;
        let rest = events.drop_first();
        assert(only_starts(rest)) by {
            assert forall|i: int| 0 <= i < rest.len() implies rest[i] is Start || rest[i]
                == Event::SpawnFinished(true) by {
                assert(rest[i] == events[i + 1]);
            }
        }
        assert(events[0] is Start || events[0] == Event::SpawnFinished(true));
        law_starts_spawn_at_most_once(next, rest);
    }
}

/// Where nothing runs and a start is among the requests, exactly one spawn
/// is asked for.
pub proof fn law_starts_spawn_exactly_once(s: ManagerState, events: Seq<Event>)
    requires
        s.at_rest(),
        !s.running(),
        s.spawned < u64::MAX,
        only_starts(events),
        exists|i: int| 0 <= i < events.len() && events[i] is Start,
    ensures
        spawns_asked(s, events) == 1,
    decreases events.len(),
{
    let next = s.step(events[0]).0;
    let rest = events.drop_first();
    assert(only_starts(rest)) by {
        assert forall|i: int| 0 <= i < rest.len() implies rest[i] is Start || rest[i]
            == Event::SpawnFinished(true) by {
            assert(rest[i] == events[i + 1]);
        }
    }
    assert(events[0] is Start || events[0] == Event::SpawnFinished(true));
    if events[0] is Start {
        law_step_keeps_validity(s, events[0]);
        law_starts_spawn_at_most_once(next, rest);
    } else {
        let i = choose|i: int| 0 <= i < events.len() && events[i] is Start;
        assert(rest[i - 1] == events[i]);
        law_starts_spawn_exactly_once(next, rest);
    }
}

/// Starts never replace a process: through any sequence of start requests
/// and spawn successes a running process stays the running one, and where
/// nothing ran, the only process that can come to run is the one with the
/// next handle.
pub proof fn law_starts_leave_one_process(s: ManagerState, events: Seq<Event>)
    requires
        s.wf(),
        only_starts(events),
        s.running() || s.phase is Idle || s.phase is Spawning,
    ensures
        ({
            let end = state_after(s, events);
            &&& s.running() ==> end.child == s.child
            &&& !s.running() && end.running() ==> end.child == Some(s.next_handle())
            &&& !s.running() && !end.running() ==> end.spawned == s.spawned
        }),
    decreases events.len(),
{
    if events.len() > 0 {
        let next = s.step(events[0]).0;
        let rest = events.drop_first();
        assert(only_starts(rest)) by {
            assert forall|i: int| 0 <= i < rest.len() implies rest[i] is Start || rest[i]
                == Event::SpawnFinished(true) by {
                assert(rest[i] == events[i + 1]);
            }
        }
        assert(events[0] is Start || events[0] == Event::SpawnFinished(true));
        law_step_keeps_validity(s, events[0]);
        law_starts_leave_one_process(next, rest);
    }
}

} // verus!
