//! The lifecycle controller: on every tick it decides, from the two
//! schedules and from what it tracks, whether the instance is to be
//! provisioned, asked for its occupancy, or destroyed.
//!
//! The controller does no I/O. A tick returns the action to perform; the
//! caller performs it and hands the outcome back.

use crate::cloud::{CloudError, IpAddress, Server};
use crate::error::Error;
use crate::schedule::{spec_next_occurrence, ScheduleWindow};
use vstd::prelude::*;

verus! {

/// Seconds between two ticks.
pub const TICK_SECS: u64 = 60;

/// The port on which a running instance answers the occupancy query.
pub const OCCUPANCY_PORT: u16 = 27015;

/// Nanoseconds in a second.
pub const NANOS_PER_SEC: u64 = 1_000_000_000;

/// What the controller tracks between ticks.
#[derive(Debug, Clone, PartialEq, Eq)]
pub struct ControllerState {
    /// The one instance that is managed, if there is one.
    pub active_server: Option<Server>,
    /// The reading of the monotonic clock, in nanoseconds, at which the
    /// controller began to wait for the instance to empty.
    pub drain_started_at: Option<u64>,
}

/// The three states of the controller.
#[derive(Debug, Clone, Copy, PartialEq, Eq, Structural)]
pub enum Phase {
    /// No instance is tracked.
    Idle,
    /// An instance is tracked and no grace timer runs.
    Active,
    /// An instance is tracked and the grace timer runs.
    Draining,
}

/// Where a tick finds itself relative to the two schedules.
#[derive(Debug, Clone, Copy, PartialEq, Eq, Structural)]
pub enum Window {
    /// Past a start boundary and before the stop boundary that follows.
    Run,
    /// Past a stop boundary and before the start boundary that follows.
    Stop,
    /// Both boundaries fall on the same second.
    Neither,
}

/// What a tick asks its caller to do.
#[derive(Debug, Clone, PartialEq, Eq)]
pub enum TickAction {
    Nothing,
    /// Run the provisioning pipeline, then call `provision_finished`.
    Provision,
    /// Ask the instance how many players it has, then call
    /// `occupancy_reported`.
    QueryOccupancy { ip: IpAddress, port: u16 },
    /// The grace period is over: destroy the instance whoever is on it, then
    /// call `kill_finished`.
    ForceStop { id: String },
    /// One of the schedules has no further boundary, so the tick could not
    /// tell in which window it falls. Nothing has changed.
    Unscheduled,
}

/// What the controller asks for once the occupancy is known.
#[derive(Debug, Clone, PartialEq, Eq)]
pub enum DrainAction {
    /// The report does not concern the controller: it is not draining.
    Nothing,
    /// Nobody is left: destroy the instance, then call `kill_finished`.
    Destroy { id: String },
    /// Players are still connected. Nothing is done this tick.
    Hold { players: usize },
    /// The query failed. The instance is taken to be occupied.
    Unknown(Error),
}

/// What follows a run of the provisioning pipeline.
#[derive(Debug, Clone, PartialEq, Eq)]
pub enum ProvisionFollowUp {
    /// The pipeline set up a new instance, which is now tracked.
    Started,
    /// An instance was already there and is now tracked. Its address is to
    /// be published.
    Adopted { ip: IpAddress },
    /// The pipeline failed. The controller stays idle and tries again on the
    /// next tick.
    Report(Error),
}

impl ControllerState {
    /// The grace timer runs only while an instance is tracked.
    pub open spec fn wf(self) -> bool {
        self.drain_started_at is Some ==> self.active_server is Some
    }

    /// The state in which no instance is tracked.
    pub open spec fn idle() -> ControllerState {
        ControllerState { active_server: None, drain_started_at: None }
    }

    /// The state that the controller is in.
    pub open spec fn phase(self) -> Phase {
        if self.active_server is None {
            Phase::Idle
        } else if self.drain_started_at is None {
            Phase::Active
        } else {
            Phase::Draining
        }
    }
}

/// The window that a pair of next boundaries puts a tick in: a run-window
/// when the next start lies after the next stop, a stop-window when the next
/// stop lies after the next start.
pub open spec fn spec_window(next_start: int, next_stop: int) -> Window {
    if next_start > next_stop {
        Window::Run
    } else if next_stop > next_start {
        Window::Stop
    } else {
        Window::Neither
    }
}

/// The window that a pair of next boundaries puts a tick in.
pub fn window(next_start: i64, next_stop: i64) -> (r: Window)
    ensures
        r == spec_window(next_start as int, next_stop as int),
{
    if next_start > next_stop {
        Window::Run
    } else if next_stop > next_start {
        Window::Stop
    } else {
        Window::Neither
    }
}

/// Nanoseconds that have passed on the monotonic clock between the reading
/// `started` and the reading `clock`; zero if the clock reads less than
/// before.
pub open spec fn spec_elapsed(started: u64, clock: u64) -> int {
    if clock >= started {
        clock - started
    } else {
        0
    }
}

/// Whether strictly more than `grace_secs` seconds have passed between the
/// two readings.
pub open spec fn spec_grace_exceeded(started: u64, clock: u64, grace_secs: u64) -> bool {
    spec_elapsed(started, clock) > grace_secs * NANOS_PER_SEC
}

/// Whether strictly more than `grace_secs` seconds have passed between the
/// two readings of the monotonic clock.
pub fn grace_exceeded(started: u64, clock: u64, grace_secs: u64) -> (r: bool)
    ensures
        r == spec_grace_exceeded(started, clock, grace_secs),
{
    let elapsed: u64 = if clock >= started {
        clock - started
    } else {
        0
    };
    assert(grace_secs * NANOS_PER_SEC <= u128::MAX);
    let limit: u128 = (grace_secs as u128) * (NANOS_PER_SEC as u128);
    (elapsed as u128) > limit
}

/// The state after a tick and the action that the tick asks for.
///
/// In a run-window the grace timer is cleared, and an idle controller asks
/// for provisioning. In a stop-window a controller that tracks an instance
/// starts the grace timer unless it runs already, and asks for a forced stop
/// once the grace period is exceeded, for the occupancy before that.
pub open spec fn spec_tick(
    state: ControllerState,
    window: Window,
    clock: u64,
    grace_secs: u64,
) -> (ControllerState, TickAction) {
    match window {
        Window::Run => {
            let cleared = ControllerState {
                active_server: state.active_server,
                drain_started_at: None,
            };
            if state.active_server is None {
                (cleared, TickAction::Provision)
            } else {
                (cleared, TickAction::Nothing)
            }
        },
        Window::Stop => match state.active_server {
            None => (state, TickAction::Nothing),
            Some(server) => {
                let started = match state.drain_started_at {
                    Some(t) => t,
                    None => clock,
                };
                let draining = ControllerState {
                    active_server: state.active_server,
                    drain_started_at: Some(started),
                };
                if spec_grace_exceeded(started, clock, grace_secs) {
                    (draining, TickAction::ForceStop { id: server.id })
                } else {
                    (draining, TickAction::QueryOccupancy { ip: server.ip, port: OCCUPANCY_PORT })
                }
            },
        },
        Window::Neither => (state, TickAction::Nothing),
    }
}

/// The state after the provisioning pipeline has ended, and what follows.
pub open spec fn spec_provisioned(
    state: ControllerState,
    outcome: Result<Server, Error>,
    adopt_existing: bool,
) -> (ControllerState, ProvisionFollowUp) {
    match outcome {
        Ok(server) => (
            ControllerState { active_server: Some(server), drain_started_at: None },
            ProvisionFollowUp::Started,
        ),
        Err(Error::AlreadyRunning(server)) => if adopt_existing {
            (
                ControllerState { active_server: Some(server), drain_started_at: None },
                ProvisionFollowUp::Adopted { ip: server.ip },
            )
        } else {
            (state, ProvisionFollowUp::Report(Error::AlreadyRunning(server)))
        },
        Err(e) => (state, ProvisionFollowUp::Report(e)),
    }
}

/// What the controller asks for once the occupancy oracle has answered.
/// The state does not change.
pub open spec fn spec_occupancy(state: ControllerState, report: Result<usize, Error>)
    -> DrainAction {
    if state.phase() != Phase::Draining {
        DrainAction::Nothing
    } else {
        match report {
            Ok(players) => if players == 0 {
                DrainAction::Destroy { id: state.active_server->0.id }
            } else {
                DrainAction::Hold { players }
            },
            Err(e) => DrainAction::Unknown(e),
        }
    }
}

/// The state after the provider has answered a request to destroy the
/// instance: idle if it was destroyed, unchanged if not.
pub open spec fn spec_killed(state: ControllerState, result: Result<(), CloudError>)
    -> ControllerState {
    match result {
        Ok(_) => ControllerState::idle(),
        Err(_) => state,
    }
}

/// The state after the instances found at start-up have been looked at: the
/// first of them is tracked, if adoption is configured and nothing is
/// tracked yet.
pub open spec fn spec_adopted(
    state: ControllerState,
    listed: Result<Vec<Server>, CloudError>,
    adopt_existing: bool,
) -> ControllerState {
    match listed {
        Ok(servers) => if adopt_existing && state.active_server is None && servers@.len() > 0 {
            ControllerState { active_server: Some(servers@[0]), drain_started_at: None }
        } else {
            state
        },
        Err(_) => state,
    }
}

/// What one tick is given: the two next boundaries and the reading of the
/// monotonic clock.
pub struct TickInput {
    pub next_start: int,
    pub next_stop: int,
    pub clock: u64,
}

/// The number of provisioning attempts over a run of ticks, where the
/// attempt that the i-th tick asks for, if it asks for one, ends in
/// `outcomes[i]`. Other actions are left unperformed.
pub open spec fn spec_attempts(
    state: ControllerState,
    grace_secs: u64,
    adopt_existing: bool,
    ticks: Seq<TickInput>,
    outcomes: Seq<Result<Server, Error>>,
) -> nat
    decreases ticks.len(),
{
    if ticks.len() == 0 || outcomes.len() != ticks.len() {
        0
    } else {
        let (after_tick, action) = spec_tick(
            state,
            spec_window(ticks[0].next_start, ticks[0].next_stop),
            ticks[0].clock,
            grace_secs,
        );
        if action == TickAction::Provision {
            1 + spec_attempts(
                spec_provisioned(after_tick, outcomes[0], adopt_existing).0,
                grace_secs,
                adopt_existing,
                ticks.drop_first(),
                outcomes.drop_first(),
            )
        } else {
            spec_attempts(
                after_tick,
                grace_secs,
                adopt_existing,
                ticks.drop_first(),
                outcomes.drop_first(),
            )
        }
    }
}

/// Whether a provisioning outcome leaves an idle controller idle.
pub open spec fn spec_leaves_idle(outcome: Result<Server, Error>, adopt_existing: bool) -> bool {
    match outcome {
        Ok(_) => false,
        Err(Error::AlreadyRunning(_)) => !adopt_existing,
        Err(_) => true,
    }
}

/// Every transition keeps the state well-formed: the grace timer runs only
/// while an instance is tracked.
pub proof fn law_transitions_keep_well_formed(
    state: ControllerState,
    window: Window,
    clock: u64,
    grace_secs: u64,
    outcome: Result<Server, Error>,
    adopt_existing: bool,
    killed: Result<(), CloudError>,
    listed: Result<Vec<Server>, CloudError>,
)
    requires
        state.wf(),
    ensures
        spec_tick(state, window, clock, grace_secs).0.wf(),
        spec_provisioned(state, outcome, adopt_existing).0.wf(),
        spec_killed(state, killed).wf(),
        spec_adopted(state, listed, adopt_existing).wf(),
{
}

/// An idle controller in a run-window asks for provisioning, on every such
/// tick and for nothing else; the tick itself leaves it idle. An attempt
/// that fails leaves it idle too, so the next tick asks again; an attempt
/// that yields an instance ends the idle state. A controller that tracks an
/// instance never asks for provisioning.
pub proof fn law_idle_in_run_window_provisions(
    state: ControllerState,
    next_start: int,
    next_stop: int,
    clock: u64,
    grace_secs: u64,
    outcome: Result<Server, Error>,
    adopt_existing: bool,
)
    requires
        state.wf(),
    ensures
        state.phase() == Phase::Idle && next_start > next_stop ==> spec_tick(
            state,
            spec_window(next_start, next_stop),
            clock,
            grace_secs,
        ) == (state, TickAction::Provision),
        state.phase() == Phase::Idle ==> (spec_provisioned(state, outcome, adopt_existing).0.phase()
            == Phase::Idle <==> spec_leaves_idle(outcome, adopt_existing)),
        state.phase() == Phase::Idle && spec_leaves_idle(outcome, adopt_existing)
            ==> spec_provisioned(state, outcome, adopt_existing).0 == state,
        state.phase() != Phase::Idle || !(next_start > next_stop) ==> spec_tick(
            state,
            spec_window(next_start, next_stop),
            clock,
            grace_secs,
        ).1 != TickAction::Provision,
{
}

/// Over any run of ticks that all fall into a run-window, an idle controller
/// whose attempts all fail makes exactly one attempt per tick.
pub proof fn law_one_attempt_per_tick(
    state: ControllerState,
    grace_secs: u64,
    adopt_existing: bool,
    ticks: Seq<TickInput>,
    outcomes: Seq<Result<Server, Error>>,
)
    requires
        state.wf(),
        state.phase() == Phase::Idle,
        outcomes.len() == ticks.len(),
        forall|i: int| 0 <= i < ticks.len() ==> (#[trigger] ticks[i]).next_start > ticks[i].next_stop,
        forall|i: int|
            0 <= i < outcomes.len() ==> spec_leaves_idle(#[trigger] outcomes[i], adopt_existing),
    ensures
        spec_attempts(state, grace_secs, adopt_existing, ticks, outcomes) == ticks.len(),
    decreases ticks.len(),
{
    if ticks.len() > 0 {
        law_one_attempt_per_tick(
            state,
            grace_secs,
            adopt_existing,
            ticks.drop_first(),
            outcomes.drop_first(),
        );
    }
}

/// The grace period. While the controller drains, a tick in a stop-window
/// keeps the start of the grace timer, and asks for a forced stop exactly
/// when more than the grace period has passed since that start; before
/// that it asks for the occupancy, and an instance that still has players
/// is left alone. The tick on which draining begins never forces a stop.
pub proof fn law_grace_period(state: ControllerState, clock: u64, grace_secs: u64, players: usize)
    requires
        state.wf(),
        state.active_server is Some,
    ensures
        ({
            let server = state.active_server->0;
            let (next, action) = spec_tick(state, Window::Stop, clock, grace_secs);
            let started = next.drain_started_at->0;
            &&& next.phase() == Phase::Draining
            &&& next.active_server == state.active_server
            &&& state.phase() == Phase::Draining ==> next == state
            &&& state.phase() == Phase::Active ==> started == clock && action
                == (TickAction::QueryOccupancy { ip: server.ip, port: OCCUPANCY_PORT })
            &&& action == (TickAction::ForceStop { id: server.id }) <==> spec_elapsed(
                started,
                clock,
            ) > grace_secs * NANOS_PER_SEC
            &&& action != (TickAction::ForceStop { id: server.id }) ==> action
                == (TickAction::QueryOccupancy { ip: server.ip, port: OCCUPANCY_PORT })
            &&& players > 0 ==> spec_occupancy(next, Ok(players)) == (DrainAction::Hold { players })
            &&& spec_occupancy(next, Ok(0)) == (DrainAction::Destroy { id: server.id })
        }),
{
}

/// The grace timer is unset after every tick in a run-window and after the
/// instance has been destroyed; and whenever no instance is tracked.
pub proof fn law_grace_timer_resets(state: ControllerState, clock: u64, grace_secs: u64)
    requires
        state.wf(),
    ensures
        spec_tick(state, Window::Run, clock, grace_secs).0.drain_started_at is None,
        spec_tick(state, Window::Run, clock, grace_secs).0.active_server == state.active_server,
        spec_killed(state, Ok(())) == ControllerState::idle(),
        state.active_server is None ==> state.drain_started_at is None,
{
}

/// The controller: the schedules and settings it was made with, and what it
/// tracks. It is the only owner of that state.
pub struct Controller {
    schedule: ScheduleWindow,
    grace_secs: u64,
    adopt_existing: bool,
    state: ControllerState,
}

impl View for Controller {
    type V = ControllerState;

    closed spec fn view(&self) -> ControllerState {
        self.state
    }
}

impl Controller {
    #[verifier::type_invariant]
    spec fn inv(self) -> bool {
        self.state.wf()
    }

    /// The schedules that the controller was made with.
    pub closed spec fn schedule(&self) -> ScheduleWindow {
        self.schedule
    }

    /// The grace period, in seconds.
    pub closed spec fn spec_grace_secs(&self) -> u64 {
        self.grace_secs
    }

    /// Whether instances that exist already are taken over.
    pub closed spec fn spec_adopt_existing(&self) -> bool {
        self.adopt_existing
    }

    /// Whether `other` differs from this controller in nothing but what it
    /// tracks.
    pub open spec fn same_settings(&self, other: &Controller) -> bool {
        &&& self.schedule() == other.schedule()
        &&& self.spec_grace_secs() == other.spec_grace_secs()
        &&& self.spec_adopt_existing() == other.spec_adopt_existing()
    }

    /// An idle controller.
    pub fn new(schedule: ScheduleWindow, grace_secs: u64, adopt_existing: bool) -> (r: Controller)
        ensures
            r@ == ControllerState::idle(),
            r.schedule() == schedule,
            r.spec_grace_secs() == grace_secs,
            r.spec_adopt_existing() == adopt_existing,
    {
        Controller {
            schedule,
            grace_secs,
            adopt_existing,
            state: ControllerState { active_server: None, drain_started_at: None },
        }
    }

    /// The grace period, in seconds.
    pub fn grace_secs(&self) -> (r: u64)
        ensures
            r == self.spec_grace_secs(),
    {
        self.grace_secs
    }

    /// Whether instances that exist already are taken over. If so, the caller
    /// lists the instances once at start-up and hands them to `adopt_listed`.
    pub fn adopt_existing(&self) -> (r: bool)
        ensures
            r == self.spec_adopt_existing(),
    {
        self.adopt_existing
    }

    /// What the controller tracks.
    pub fn state(&self) -> (r: &ControllerState)
        ensures
            *r == self@,
            r.wf(),
    {
        proof {
            use_type_invariant(self);
        }
        &self.state
    }

    /// The instance that is tracked.
    pub fn active_server(&self) -> (r: Option<&Server>)
        ensures
            r is Some <==> self@.active_server is Some,
            r matches Some(s) ==> self@.active_server == Some(*s),
    {
        self.state.active_server.as_ref()
    }

    /// The state that the controller is in.
    pub fn phase(&self) -> (r: Phase)
        ensures
            r == self@.phase(),
    {
        if self.state.active_server.is_none() {
            Phase::Idle
        } else if self.state.drain_started_at.is_none() {
            Phase::Active
        } else {
            Phase::Draining
        }
    }

    /// Looks at the instances found at start-up and tracks the first of
    /// them, if adoption is configured and nothing is tracked yet. A listing
    /// that failed changes nothing. Returns whether an instance was adopted.
    pub fn adopt_listed(&mut self, listed: Result<Vec<Server>, CloudError>) -> (adopted: bool)
        ensures
            final(self)@ == spec_adopted(old(self)@, listed, old(self).spec_adopt_existing()),
            final(self).same_settings(old(self)),
            adopted == (final(self)@ != old(self)@),
    {
        proof {
            use_type_invariant(&*self);
        }
        if !self.adopt_existing || self.state.active_server.is_some() {
            return false;
        }
        match listed {
            Ok(servers) => {
                if servers.len() > 0 {
                    let first = servers[0].duplicate();
                    self.state = ControllerState {
                        active_server: Some(first),
                        drain_started_at: None,
                    };
                    true
                } else {
                    false
                }
            },
            Err(_) => false,
        }
    }

    /// One tick, given the next start and stop boundaries and the reading of
    /// the monotonic clock in nanoseconds.
    pub fn decide(&mut self, next_start: i64, next_stop: i64, clock: u64) -> (action: TickAction)
        ensures
            (final(self)@, action) == spec_tick(
                old(self)@,
                spec_window(next_start as int, next_stop as int),
                clock,
                old(self).spec_grace_secs(),
            ),
            final(self).same_settings(old(self)),
    {
        proof {
            use_type_invariant(&*self);
        }
        match window(next_start, next_stop) {
            Window::Run => {
                self.state.drain_started_at = None;
                if self.state.active_server.is_none() {
                    TickAction::Provision
                } else {
                    TickAction::Nothing
                }
            },
            Window::Stop => {
                let (id, ip) = match &self.state.active_server {
                    None => {
                        return TickAction::Nothing;
                    },
                    Some(server) => (server.id.clone(), server.ip),
                };
                let started = match self.state.drain_started_at {
                    Some(t) => t,
                    None => clock,
                };
                self.state.drain_started_at = Some(started);
                if grace_exceeded(started, clock, self.grace_secs) {
                    TickAction::ForceStop { id }
                } else {
                    TickAction::QueryOccupancy { ip, port: OCCUPANCY_PORT }
                }
            },
            Window::Neither => TickAction::Nothing,
        }
    }

    /// One tick at the instant `now` (seconds since the Unix epoch), with the
    /// monotonic clock reading `clock` nanoseconds. The next start and stop
    /// boundaries are those of the schedules after `now`. If either schedule
    /// has no further occurrence, the tick changes nothing and says so.
    pub fn tick(&mut self, now: i64, clock: u64) -> (action: TickAction)
        ensures
            final(self).same_settings(old(self)),
            (final(self)@, action) == match (
                spec_next_occurrence(old(self).schedule().start_source(), now as int),
                spec_next_occurrence(old(self).schedule().stop_source(), now as int),
            ) {
                (Some(next_start), Some(next_stop)) => spec_tick(
                    old(self)@,
                    spec_window(next_start, next_stop),
                    clock,
                    old(self).spec_grace_secs(),
                ),
                _ => (old(self)@, TickAction::Unscheduled),
            },
    {
        let next_start = self.schedule.next_start(now);
        let next_stop = self.schedule.next_stop(now);
        match (next_start, next_stop) {
            (Some(start), Some(stop)) => self.decide(start, stop, clock),
            _ => TickAction::Unscheduled,
        }
    }

    /// Takes in the outcome of the provisioning pipeline. A new instance is
    /// tracked from now on. An instance that was found running is tracked if
    /// adoption is configured. Any other outcome leaves the controller as it
    /// was, so that the next tick tries again.
    pub fn provision_finished(&mut self, outcome: Result<Server, Error>) -> (r: ProvisionFollowUp)
        ensures
            (final(self)@, r) == spec_provisioned(
                old(self)@,
                outcome,
                old(self).spec_adopt_existing(),
            ),
            final(self).same_settings(old(self)),
    {
        proof {
            use_type_invariant(&*self);
        }
        match outcome {
            Ok(server) => {
                self.state = ControllerState {
                    active_server: Some(server),
                    drain_started_at: None,
                };
                ProvisionFollowUp::Started
            },
            Err(Error::AlreadyRunning(server)) => {
                if self.adopt_existing {
                    let ip = server.ip;
                    self.state = ControllerState {
                        active_server: Some(server),
                        drain_started_at: None,
                    };
                    ProvisionFollowUp::Adopted { ip }
                } else {
                    ProvisionFollowUp::Report(Error::AlreadyRunning(server))
                }
            },
            Err(e) => ProvisionFollowUp::Report(e),
        }
    }

    /// Takes in the answer of the occupancy oracle. An empty instance is to
    /// be destroyed at once. A failed query does not stop the instance: what
    /// is not known to be empty is taken to be occupied.
    pub fn occupancy_reported(&self, report: Result<usize, Error>) -> (r: DrainAction)
        ensures
            r == spec_occupancy(self@, report),
    {
        proof {
            use_type_invariant(self);
        }
        if self.state.drain_started_at.is_none() {
            return DrainAction::Nothing;
        }
        match &self.state.active_server {
            None => DrainAction::Nothing,
            Some(server) => match report {
                Ok(players) => {
                    if players == 0 {
                        DrainAction::Destroy { id: server.id.clone() }
                    } else {
                        DrainAction::Hold { players }
                    }
                },
                Err(e) => DrainAction::Unknown(e),
            },
        }
    }

    /// Takes in the provider's answer to a request to destroy the instance.
    /// After a success nothing is tracked and the grace timer is cleared.
    /// After a failure nothing changes, and the failure is handed back to be
    /// reported.
    pub fn kill_finished(&mut self, result: Result<(), CloudError>) -> (failure: Option<CloudError>)
        ensures
            final(self)@ == spec_killed(old(self)@, result),
            final(self).same_settings(old(self)),
            failure == match result {
                Ok(_) => None,
                Err(e) => Some(e),
            },
    {
        proof {
            use_type_invariant(&*self);
        }
        match result {
            Ok(_) => {
                self.state = ControllerState { active_server: None, drain_started_at: None };
                None
            },
            Err(e) => Some(e),
        }
    }
}

} // verus!
