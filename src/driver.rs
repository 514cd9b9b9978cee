//! The lifecycle driver: connect, discover, acquire, wait for the running flag
//! to drop, release, exit. It decides; the caller performs each action and
//! reports what came of it.
use vstd::prelude::*;
use crate::interfaces::{Capability, capability_of};
use crate::lifecycle::MissingCapability;
use crate::registry::{Capabilities, RegistryEvent, Request};

verus! {

/// How long the wait loop sleeps between two looks at the running flag.
pub const POLL_PERIOD_MS: u64 = 100;

/// Where the session stands.
#[derive(Clone, Copy, Debug, PartialEq, Eq, Structural)]
pub enum Phase {
    Connecting,
    Discovering,
    Acquiring,
    Active,
    Releasing,
    Terminated,
}

/// How the session ended.
#[derive(Clone, Copy, Debug, PartialEq, Eq, Structural)]
pub enum Outcome {
    /// The inhibitor was held and released.
    Completed,
    /// A capability was missing; the session stopped without harm.
    Missing(MissingCapability),
    /// No display server could be reached.
    ConnectionFailed,
    /// A round trip failed.
    ProtocolFailed,
}

/// What came of the last action.
#[derive(Clone, Copy, Debug, PartialEq, Eq, Structural)]
pub enum Event {
    Connected,
    ConnectFailed,
    RoundTripDone,
    RoundTripFailed,
    /// The value of the running flag.
    Running(bool),
}

/// What the caller must do next.
#[derive(Clone, Copy, Debug, PartialEq, Eq, Structural)]
pub enum Action {
    Send(Request),
    /// Flush the requests and dispatch every reply (registry events go to
    /// `Driver::registry_event`), then report `RoundTripDone` or `RoundTripFailed`.
    RoundTrip,
    /// Report the running flag with `Running`.
    CheckRunning,
    /// Sleep this many milliseconds.
    Sleep(u64),
    /// Stop with this outcome.
    Exit(Outcome),
}

/// The process exit code for an outcome: zero where the session ended
/// cleanly, including when a capability was missing.
pub open spec fn exit_code_of(outcome: Outcome) -> i32 {
    match outcome {
        Outcome::Completed => 0,
        Outcome::Missing(_) => 0,
        Outcome::ConnectionFailed => 1,
        Outcome::ProtocolFailed => 1,
    }
}

impl Outcome {
    /// The process exit code for this outcome.
    pub fn exit_code(&self) -> (r: i32)
        ensures
            r == exit_code_of(*self),
    {
        match self {
            Outcome::Completed => 0,
            Outcome::Missing(_) => 0,
            Outcome::ConnectionFailed => 1,
            Outcome::ProtocolFailed => 1,
        }
    }
}

/// The session's phase and the capabilities it holds.
#[derive(Clone, Copy, Debug, PartialEq, Eq, Structural)]
pub struct Driver {
    pub phase: Phase,
    pub caps: Capabilities,
}

impl Driver {
    /// A session that has not connected yet.
    pub open spec fn initial() -> Driver {
        Driver { phase: Phase::Connecting, caps: Capabilities::empty() }
    }

    /// The driver after a registry event.
    pub open spec fn after_registry(self, event: RegistryEvent) -> Driver {
        Driver { caps: self.caps.after_event(event), ..self }
    }

    /// The terminal state with its one action.
    pub open spec fn stopped(self, outcome: Outcome) -> (Driver, Seq<Action>) {
        (Driver { phase: Phase::Terminated, ..self }, seq![Action::Exit(outcome)])
    }

    /// The next state and the actions owed, for each phase and event.
    pub open spec fn next(self, event: Event) -> (Driver, Seq<Action>) {
        match (self.phase, event) {
            (Phase::Connecting, Event::Connected) => (
                Driver { phase: Phase::Discovering, ..self },
                seq![Action::Send(Request::GetRegistry), Action::RoundTrip],
            ),
            (Phase::Connecting, Event::ConnectFailed) => self.stopped(Outcome::ConnectionFailed),
            (Phase::Discovering, Event::RoundTripDone) => match self.caps.acquire_result() {
                Ok(req) => (
                    Driver { phase: Phase::Acquiring, caps: self.caps.acquired() },
                    seq![Action::Send(req), Action::RoundTrip],
                ),
                Err(m) => self.stopped(Outcome::Missing(m)),
            },
            (Phase::Acquiring, Event::RoundTripDone) => (
                Driver { phase: Phase::Active, ..self },
                seq![Action::CheckRunning],
            ),
            (Phase::Active, Event::Running(true)) => (
                self,
                seq![Action::Sleep(POLL_PERIOD_MS), Action::CheckRunning],
            ),
            (Phase::Active, Event::Running(false)) => match self.caps.release_result() {
                Ok(reqs) => (
                    Driver { phase: Phase::Releasing, caps: self.caps.released() },
                    reqs.map_values(|q: Request| Action::Send(q)).push(Action::RoundTrip),
                ),
                Err(m) => self.stopped(Outcome::Missing(m)),
            },
            (Phase::Releasing, Event::RoundTripDone) => self.stopped(Outcome::Completed),
            (Phase::Discovering, Event::RoundTripFailed) => self.stopped(Outcome::ProtocolFailed),
            (Phase::Acquiring, Event::RoundTripFailed) => self.stopped(Outcome::ProtocolFailed),
            (Phase::Releasing, Event::RoundTripFailed) => self.stopped(Outcome::ProtocolFailed),
            _ => (self, Seq::empty()),
        }
    }

    /// A session that has not connected yet.
    pub fn new() -> (r: Driver)
        ensures
            r == Driver::initial(),
    {
        Driver { phase: Phase::Connecting, caps: Capabilities::new() }
    }

    /// Hands a registry event to the registry walker; returns the requests to
    /// send, in order.
    pub fn registry_event(&mut self, event: &RegistryEvent) -> (reqs: Vec<Request>)
        ensures
            *final(self) == old(self).after_registry(*event),
            reqs@ == old(self).caps.event_requests(*event),
            old(self).caps.wf() ==> final(self).caps.wf(),
    {
        self.caps.handle_event(event)
    }

    /// Moves on by one event; returns the actions to perform, in order.
    pub fn step(&mut self, event: Event) -> (actions: Vec<Action>)
        ensures
            (*final(self), actions@) == old(self).next(event),
            old(self).caps.wf() ==> final(self).caps.wf(),
    {
        match (self.phase, event) {
            (Phase::Connecting, Event::Connected) => {
                self.phase = Phase::Discovering;
                vec![Action::Send(Request::GetRegistry), Action::RoundTrip]
            },
            (Phase::Connecting, Event::ConnectFailed) => self.stop(Outcome::ConnectionFailed),
            (Phase::Discovering, Event::RoundTripDone) => match self.caps.acquire() {
                Ok(req) => {
                    self.phase = Phase::Acquiring;
                    vec![Action::Send(req), Action::RoundTrip]
                },
                Err(m) => self.stop(Outcome::Missing(m)),
            },
            (Phase::Acquiring, Event::RoundTripDone) => {
                self.phase = Phase::Active;
                vec![Action::CheckRunning]
            },
            (Phase::Active, Event::Running(true)) => {
                vec![Action::Sleep(POLL_PERIOD_MS), Action::CheckRunning]
            },
            (Phase::Active, Event::Running(false)) => match self.caps.release() {
                Ok(reqs) => {
                    self.phase = Phase::Releasing;
                    send_all(reqs)
                },
                Err(m) => self.stop(Outcome::Missing(m)),
            },
            (Phase::Releasing, Event::RoundTripDone) => self.stop(Outcome::Completed),
            (Phase::Discovering, Event::RoundTripFailed)
            | (Phase::Acquiring, Event::RoundTripFailed)
            | (Phase::Releasing, Event::RoundTripFailed) => self.stop(Outcome::ProtocolFailed),
            _ => Vec::new(),
        }
    }

    fn stop(&mut self, outcome: Outcome) -> (actions: Vec<Action>)
        ensures
            (*final(self), actions@) == old(self).stopped(outcome),
    {
        self.phase = Phase::Terminated;
        vec![Action::Exit(outcome)]
    }
}

/// Each request as a `Send` action, in order, then a round trip.
fn send_all(reqs: Vec<Request>) -> (actions: Vec<Action>)
    ensures
        actions@ == reqs@.map_values(|q: Request| Action::Send(q)).push(Action::RoundTrip),
{
    let mut actions: Vec<Action> = Vec::new();
    let mut i: usize = 0;
    while i < reqs.len()
        invariant
            i <= reqs.len(),
            actions@ == reqs@.subrange(0, i as int).map_values(|q: Request| Action::Send(q)),
        decreases reqs.len() - i,
    {
        actions.push(Action::Send(reqs[i]));
        assert(reqs@.subrange(0, i + 1) == reqs@.subrange(0, i as int).push(reqs@[i as int]));
        i = i + 1;
    }
    assert(reqs@.subrange(0, reqs.len() as int) == reqs@);
    actions.push(Action::RoundTrip);
    actions
}

/// No event in `events` announces an inhibit manager.
pub open spec fn announces_no_manager(events: Seq<RegistryEvent>) -> bool {
    forall|i: int|
        0 <= i < events.len() ==> !(#[trigger] events[i] is Global && capability_of(
            events[i]->Global_interface@,
        ) == Capability::InhibitManager)
}

proof fn lemma_manager_stays_unbound(s: Capabilities, events: Seq<RegistryEvent>)
    requires
        s.inhibit_manager.is_none(),
        announces_no_manager(events),
    ensures
        s.after_events(events).inhibit_manager.is_none(),
    decreases events.len(),
{
    if events.len() > 0 {
        let rest = events.drop_first();
        assert(!(events[0] is Global && capability_of(events[0]->Global_interface@)
            == Capability::InhibitManager));
        assert forall|i: int| 0 <= i < rest.len() implies !(#[trigger] rest[i] is Global
            && capability_of(rest[i]->Global_interface@) == Capability::InhibitManager) by {
            assert(rest[i] == events[i + 1]);
        }
        lemma_manager_stays_unbound(s.after_event(events[0]), rest);
    }
}

/// If no inhibit manager is ever announced during discovery, the session ends
/// at the first round trip, without an inhibitor, with exit code zero.
pub proof fn lemma_clean_exit_without_manager(events: Seq<RegistryEvent>)
    requires
        announces_no_manager(events),
    ensures
        ({
            let discovering = Driver::initial().next(Event::Connected).0;
            let discovered = Driver {
                caps: discovering.caps.after_events(events),
                ..discovering
            };
            let (done, actions) = discovered.next(Event::RoundTripDone);
            &&& done.phase == Phase::Terminated
            &&& !done.caps.inhibitor
            &&& actions == seq![Action::Exit(Outcome::Missing(MissingCapability::InhibitManager))]
            &&& exit_code_of(Outcome::Missing(MissingCapability::InhibitManager)) == 0
        }),
{
    let discovering = Driver::initial().next(Event::Connected).0;
    lemma_manager_stays_unbound(discovering.caps, events);
    crate::registry::lemma_events_create_no_inhibitor(discovering.caps, events);
}

/// While active, a raised flag costs one poll period of sleep before the next
/// look, and a lowered flag ends the wait at once.
pub proof fn lemma_flag_responsiveness(d: Driver)
    requires
        d.phase == Phase::Active,
    ensures
        0 < POLL_PERIOD_MS,
        d.next(Event::Running(true)) == (d, seq![Action::Sleep(POLL_PERIOD_MS), Action::CheckRunning]),
        d.next(Event::Running(false)).0.phase == Phase::Releasing
            || d.next(Event::Running(false)).0.phase == Phase::Terminated,
        forall|i: int|
            0 <= i < d.next(Event::Running(false)).1.len() ==> !(
            #[trigger] d.next(Event::Running(false)).1[i] is Sleep),
{
}

/// Shutting down with everything held destroys the inhibitor, then the
/// manager, then flushes both with a round trip.
pub proof fn lemma_shutdown_order(d: Driver)
    requires
        d.phase == Phase::Active,
        d.caps.inhibit_manager.is_some(),
        d.caps.inhibitor,
    ensures
        d.next(Event::Running(false)).1 == seq![
            Action::Send(Request::DestroyInhibitor),
            Action::Send(Request::DestroyInhibitManager),
            Action::RoundTrip,
        ],
{
    let reqs = d.caps.release_result()->Ok_0;
    assert(reqs.map_values(|q: Request| Action::Send(q)).push(Action::RoundTrip) =~= seq![
        Action::Send(Request::DestroyInhibitor),
        Action::Send(Request::DestroyInhibitManager),
        Action::RoundTrip,
    ]);
}

} // verus!
