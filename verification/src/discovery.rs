//! The workflow that finds the devices and asks each for its name.
//!
//! Devices are asked one after another, in discovery order, each over a
//! session of its own that is closed before the next one is opened. A device
//! that cannot be reached or gives no name stays in the list without a name:
//! only a failed enumeration, or a driver that answers out of turn, makes the
//! workflow fail.

use crate::device::DeviceView;
use crate::driver::{Action, ActionView, Event, EventView};
use crate::error::{ErrorView, PairingError};
use crate::registry::{list_devices, resolve_name, DeviceRegistry};
use crate::session::{LockdownSession, SessionView};
use crate::views::{option_view, result_view};
use vstd::prelude::*;

verus! {

/// Two lists hold the same devices in the same order: they agree in length
/// and, place by place, in identity and transport. Names may differ.
pub open spec fn same_devices(left: Seq<DeviceView>, right: Seq<DeviceView>) -> bool {
    &&& left.len() == right.len()
    &&& forall|i: int|
        0 <= i < left.len() ==> {
            &&& (#[trigger] left[i]).identity == right[i].identity
            &&& left[i].transport == right[i].transport
        }
}

/// The purpose under which a session is opened to ask for a name.
pub open spec fn name_purpose() -> Seq<char> {
    "pairing_gen"@
}

/// Where a discovery stands, with the one session it may hold.
pub enum DiscoveryPhaseView {
    /// The discovery service was asked.
    Enumerating,
    /// A session to the next device is being opened.
    Opening(SessionView),
    /// The device was asked for its name.
    Querying(SessionView),
    /// The session is being closed; the name it gave is kept.
    Closing(SessionView, Option<Seq<char>>),
    /// The driver answered out of turn; the session is being closed.
    Aborting(SessionView),
    /// The workflow has ended, with the failure if it failed.
    Done(Option<ErrorView>),
}

/// The mathematical value of a [`Discovery`].
pub struct DiscoveryView {
    /// The devices in discovery order.
    pub devices: Seq<DeviceView>,
    /// How many devices, from the front of the list, were asked already.
    pub resolved: nat,
    pub phase: DiscoveryPhaseView,
}

impl DiscoveryView {
    /// A discovery as it starts, and its first action.
    pub open spec fn start() -> (DiscoveryView, ActionView) {
        (
            DiscoveryView {
                devices: Seq::empty(),
                resolved: 0,
                phase: DiscoveryPhaseView::Enumerating,
            },
            ActionView::Enumerate,
        )
    }

    pub open spec fn with_phase(self, phase: DiscoveryPhaseView) -> DiscoveryView {
        DiscoveryView { phase, ..self }
    }

    /// The discovery ends in failure.
    pub open spec fn fail(self, failure: ErrorView) -> (DiscoveryView, ActionView) {
        (self.with_phase(DiscoveryPhaseView::Done(Some(failure))), ActionView::Finish)
    }

    /// The driver answered out of turn while a session was held: the session
    /// is closed before the discovery ends.
    pub open spec fn abort(self, session: SessionView) -> (DiscoveryView, ActionView) {
        (self.with_phase(DiscoveryPhaseView::Aborting(session.close())), ActionView::CloseSession)
    }

    /// The device whose turn it is was dealt with and answered `name`.
    pub open spec fn record_name(self, name: Option<Seq<char>>) -> DiscoveryView {
        if self.resolved < self.devices.len() {
            DiscoveryView {
                devices: resolve_name(self.devices, self.resolved as int, name),
                resolved: self.resolved + 1,
                ..self
            }
        } else {
            self
        }
    }

    /// Turns to the device whose turn it is, or ends where every device had
    /// its turn.
    pub open spec fn turn_to_next(self) -> (DiscoveryView, ActionView) {
        if self.resolved < self.devices.len() {
            let device = self.devices[self.resolved as int];
            (
                self.with_phase(
                    DiscoveryPhaseView::Opening(SessionView::opening(device, name_purpose())),
                ),
                ActionView::OpenSession {
                    identity: device.identity,
                    transport: device.transport,
                    purpose_tag: name_purpose(),
                },
            )
        } else {
            (self.with_phase(DiscoveryPhaseView::Done(None)), ActionView::Finish)
        }
    }

    /// The driver answered out of turn: the session, where a live one is
    /// held, is closed, and the discovery ends in a protocol error.
    pub open spec fn out_of_turn(self) -> (DiscoveryView, ActionView) {
        match self.phase {
            DiscoveryPhaseView::Opening(session) => self.abort(session),
            DiscoveryPhaseView::Querying(session) => self.abort(session),
            _ => self.fail(ErrorView::ProtocolError),
        }
    }

    /// The discovery after `event`, and what the driver is to do next.
    pub open spec fn step(self, event: EventView) -> (DiscoveryView, ActionView) {
        match (self.phase, event) {
            (DiscoveryPhaseView::Done(_), _) => (self, ActionView::Finish),
            (DiscoveryPhaseView::Enumerating, EventView::Enumerated(found)) => {
                match list_devices(found) {
                    Ok(devices) => DiscoveryView { devices, resolved: 0, ..self }.turn_to_next(),
                    Err(failure) => self.fail(failure),
                }
            },
            (DiscoveryPhaseView::Opening(session), EventView::SessionOpened(reachable)) => {
                let (opened, result) = session.establish(reachable);
                match result {
                    Err(_) => self.record_name(None).turn_to_next(),
                    Ok(_) => match opened.get_name() {
                        Ok(request) => (
                            self.with_phase(DiscoveryPhaseView::Querying(opened)),
                            ActionView::Send(request),
                        ),
                        Err(_) => self.abort(opened),
                    },
                }
            },
            (DiscoveryPhaseView::Querying(session), EventView::NameReceived(reply)) => {
                let name = match session.name_received(reply) {
                    Ok(name) => Some(name),
                    Err(_) => None,
                };
                (
                    self.with_phase(DiscoveryPhaseView::Closing(session.close(), name)),
                    ActionView::CloseSession,
                )
            },
            (DiscoveryPhaseView::Closing(_, name), EventView::SessionClosed) => self.record_name(
                name,
            ).turn_to_next(),
            _ => self.out_of_turn(),
        }
    }

    /// What the discovery has to show: the devices once it has ended well,
    /// the failure once it has failed, and a protocol error before that.
    pub open spec fn outcome(self) -> Result<Seq<DeviceView>, ErrorView> {
        match self.phase {
            DiscoveryPhaseView::Done(None) => Ok(self.devices),
            DiscoveryPhaseView::Done(Some(failure)) => Err(failure),
            _ => Err(ErrorView::ProtocolError),
        }
    }

    /// The session belongs to the device whose turn it is.
    pub open spec fn holds_turn(self, session: SessionView) -> bool {
        &&& self.resolved < self.devices.len()
        &&& session.device == self.devices[self.resolved as int]
        &&& session.purpose_tag == name_purpose()
    }

    /// What holds of every discovery that began with [`DiscoveryView::start`]
    /// and went on by [`DiscoveryView::step`]: the session it holds is that
    /// of the device whose turn it is, and is in the state its phase says.
    pub open spec fn consistent(self) -> bool {
        &&& self.resolved <= self.devices.len()
        &&& match self.phase {
            DiscoveryPhaseView::Enumerating => self.devices.len() == 0,
            DiscoveryPhaseView::Opening(session) => self.holds_turn(session)
                && session.state is Opening,
            DiscoveryPhaseView::Querying(session) => self.holds_turn(session)
                && session.state is Ready,
            DiscoveryPhaseView::Closing(session, _) => self.holds_turn(session)
                && session.state.is_final(),
            DiscoveryPhaseView::Aborting(session) => self.holds_turn(session)
                && session.state.is_final(),
            DiscoveryPhaseView::Done(None) => self.resolved == self.devices.len()
                && self.devices.len() > 0,
            DiscoveryPhaseView::Done(Some(_)) => true,
        }
    }

    /// The event answers the action that the phase is waiting on.
    pub open spec fn awaits(self, event: EventView) -> bool {
        match self.phase {
            DiscoveryPhaseView::Enumerating => event is Enumerated,
            DiscoveryPhaseView::Opening(_) => event is SessionOpened,
            DiscoveryPhaseView::Querying(_) => event is NameReceived,
            DiscoveryPhaseView::Closing(_, _) => event is SessionClosed,
            DiscoveryPhaseView::Aborting(_) => event is SessionClosed,
            DiscoveryPhaseView::Done(_) => false,
        }
    }

    /// A bound on the number of steps that are left once the devices are
    /// known.
    pub open spec fn steps_left(self) -> int {
        let turns = 3 * (self.devices.len() - self.resolved);
        match self.phase {
            DiscoveryPhaseView::Enumerating => turns + 1,
            DiscoveryPhaseView::Opening(_) => turns,
            DiscoveryPhaseView::Querying(_) => turns - 1,
            DiscoveryPhaseView::Closing(_, _) => turns - 2,
            DiscoveryPhaseView::Aborting(_) => 1,
            DiscoveryPhaseView::Done(_) => 0,
        }
    }

    /// The discovery after the events came in, one after another.
    pub open spec fn run(self, events: Seq<EventView>) -> DiscoveryView
        decreases events.len(),
    {
        if events.len() == 0 {
            self
        } else {
            self.step(events[0]).0.run(events.drop_first())
        }
    }

    /// The session the discovery holds, if it holds one.
    pub open spec fn session(self) -> Option<SessionView> {
        match self.phase {
            DiscoveryPhaseView::Opening(session) => Some(session),
            DiscoveryPhaseView::Querying(session) => Some(session),
            DiscoveryPhaseView::Closing(session, _) => Some(session),
            DiscoveryPhaseView::Aborting(session) => Some(session),
            _ => None,
        }
    }
}

enum DiscoveryPhase {
    Enumerating,
    Opening(LockdownSession),
    Querying(LockdownSession),
    Closing(LockdownSession, Option<String>),
    Aborting(LockdownSession),
    Done(Option<PairingError>),
}

impl View for DiscoveryPhase {
    type V = DiscoveryPhaseView;

    closed spec fn view(&self) -> DiscoveryPhaseView {
        match self {
            DiscoveryPhase::Enumerating => DiscoveryPhaseView::Enumerating,
            DiscoveryPhase::Opening(session) => DiscoveryPhaseView::Opening(session@),
            DiscoveryPhase::Querying(session) => DiscoveryPhaseView::Querying(session@),
            DiscoveryPhase::Closing(session, name) => DiscoveryPhaseView::Closing(
                session@,
                option_view(*name),
            ),
            DiscoveryPhase::Aborting(session) => DiscoveryPhaseView::Aborting(session@),
            DiscoveryPhase::Done(failure) => DiscoveryPhaseView::Done(option_view(*failure)),
        }
    }
}

/// The devices and how far the discovery has come, whatever phase it is in.
struct Progress {
    registry: DeviceRegistry,
    resolved: usize,
}

/// A discovery under way. Every value of this type is consistent in the
/// sense of [`DiscoveryView::consistent`].
pub struct Discovery {
    progress: Progress,
    phase: DiscoveryPhase,
}

impl View for Discovery {
    type V = DiscoveryView;

    closed spec fn view(&self) -> DiscoveryView {
        self.progress.at(self.phase@)
    }
}

/// The discovery ends in failure.
fn failed(failure: PairingError) -> (result: (DiscoveryPhase, Action))
    ensures
        result.0@ == DiscoveryPhaseView::Done(Some(failure@)),
        result.1@ == ActionView::Finish,
{
    (DiscoveryPhase::Done(Some(failure)), Action::Finish)
}

/// The driver answered out of turn while a session was held: the session is
/// closed before the discovery ends.
fn aborting(session: LockdownSession) -> (result: (DiscoveryPhase, Action))
    ensures
        result.0@ == DiscoveryPhaseView::Aborting(session@.close()),
        result.1@ == ActionView::CloseSession,
{
    let mut session = session;
    session.close();
    (DiscoveryPhase::Aborting(session), Action::CloseSession)
}

impl Progress {
    /// The discovery that has come this far, in `phase`.
    closed spec fn at(self, phase: DiscoveryPhaseView) -> DiscoveryView {
        DiscoveryView { devices: self.registry@, resolved: self.resolved as nat, phase }
    }

    /// The device whose turn it is was dealt with and answered `name`.
    fn record_name(&mut self, name: Option<String>)
        ensures
            forall|phase: DiscoveryPhaseView|
                final(self).at(phase) == (#[trigger] old(self).at(phase)).record_name(
                    option_view(name),
                ),
    {
        if self.resolved < self.registry.len() {
            self.registry.resolve_name(self.resolved, name);
            self.resolved = self.resolved + 1;
        }
    }

    /// Turns to the device whose turn it is, or ends where every device had
    /// its turn.
    fn turn_to_next(&self) -> (result: (DiscoveryPhase, Action))
        ensures
            forall|phase: DiscoveryPhaseView|
                (self.at(result.0@), result.1@) == (#[trigger] self.at(phase)).turn_to_next(),
    {
        match self.registry.get(self.resolved) {
            Some(device) => {
                let session = LockdownSession::open(
                    device.clone(),
                    String::from_str("pairing_gen"),
                );
                let action = Action::OpenSession {
                    identity: device.identity().clone(),
                    transport: device.transport(),
                    purpose_tag: String::from_str("pairing_gen"),
                };
                (DiscoveryPhase::Opening(session), action)
            },
            None => (DiscoveryPhase::Done(None), Action::Finish),
        }
    }
}

impl Discovery {
    #[verifier::type_invariant]
    closed spec fn sound(&self) -> bool {
        self@.consistent()
    }

    /// Starts a discovery. The action is the first thing the driver is to do.
    pub fn start() -> (result: (Discovery, Action))
        ensures
            (result.0@, result.1@) == DiscoveryView::start(),
            result.0@.consistent(),
    {
        let progress = Progress { registry: DeviceRegistry::new(), resolved: 0 };
        (Discovery { progress, phase: DiscoveryPhase::Enumerating }, Action::Enumerate)
    }

    /// Takes in how the last action went and says what the driver is to do
    /// next. The discovery that is handed back is consistent, as the one
    /// that was handed in is.
    pub fn step(self, event: Event) -> (result: (Discovery, Action))
        ensures
            (result.0@, result.1@) == self@.step(event@),
            self@.consistent(),
            result.0@.consistent(),
    {
        proof {
            use_type_invariant(&self);
            steps_keep_consistency(self@, event@);
        }
        let Discovery { progress, phase } = self;
        let mut progress = progress;
        let (phase, action) = match (phase, event) {
            (DiscoveryPhase::Done(failure), _) => (DiscoveryPhase::Done(failure), Action::Finish),
            (DiscoveryPhase::Enumerating, Event::Enumerated(found)) => {
                match DeviceRegistry::list_devices(found) {
                    Ok(registry) => {
                        progress = Progress { registry, resolved: 0 };
                        assert(progress.at(DiscoveryPhaseView::Enumerating) == DiscoveryView {
                            devices: registry@,
                            resolved: 0,
                            ..self@
                        });
                        progress.turn_to_next()
                    },
                    Err(failure) => failed(failure),
                }
            },
            (DiscoveryPhase::Opening(session), Event::SessionOpened(reachable)) => {
                let mut session = session;
                match session.establish(reachable) {
                    Err(_) => {
                        progress.record_name(None);
                        progress.turn_to_next()
                    },
                    Ok(_) => match session.get_name() {
                        Ok(request) => (DiscoveryPhase::Querying(session), Action::Send(request)),
                        Err(_) => aborting(session),
                    },
                }
            },
            (DiscoveryPhase::Querying(session), Event::NameReceived(reply)) => {
                let mut session = session;
                let name = match session.name_received(reply) {
                    Ok(name) => Some(name),
                    Err(_) => None,
                };
                session.close();
                (DiscoveryPhase::Closing(session, name), Action::CloseSession)
            },
            (DiscoveryPhase::Closing(_, name), Event::SessionClosed) => {
                progress.record_name(name);
                progress.turn_to_next()
            },
            (DiscoveryPhase::Opening(session), _) => aborting(session),
            (DiscoveryPhase::Querying(session), _) => aborting(session),
            _ => failed(PairingError::ProtocolError),
        };
        assert(progress.at(phase@) == self@.step(event@).0);
        (Discovery { progress, phase }, action)
    }

    /// Tells whether the discovery has ended.
    pub fn is_done(&self) -> (done: bool)
        ensures
            done == (self@.phase is Done),
    {
        match self.phase {
            DiscoveryPhase::Done(_) => true,
            _ => false,
        }
    }

    /// Yields what the discovery found: the registry once it has ended well,
    /// the failure once it has failed, and a protocol error before that.
    pub fn finish(self) -> (result: Result<DeviceRegistry, PairingError>)
        ensures
            result_view(result) == self@.outcome(),
            self@.consistent(),
    {
        proof {
            use_type_invariant(&self);
        }
        match self.phase {
            DiscoveryPhase::Done(None) => Ok(self.progress.registry),
            DiscoveryPhase::Done(Some(failure)) => Err(failure),
            _ => Err(PairingError::ProtocolError),
        }
    }
}

/// Every step keeps a discovery consistent.
pub proof fn steps_keep_consistency(discovery: DiscoveryView, event: EventView)
    requires
        discovery.consistent(),
    ensures
        discovery.step(event).0.consistent(),
{
}

/// A discovery starts out consistent.
pub proof fn discovery_starts_consistent()
    ensures
        DiscoveryView::start().0.consistent(),
{
}

/// The enumeration fixes the list: the devices come to stand as they were
/// found, in the order they were found in.
pub proof fn enumeration_fixes_the_list(discovery: DiscoveryView, found: Seq<DeviceView>)
    requires
        discovery.phase is Enumerating,
        found.len() > 0,
    ensures
        discovery.step(EventView::Enumerated(Some(found))).0.devices == found,
        discovery.step(EventView::Enumerated(Some(found))).1 == (ActionView::OpenSession {
            identity: found[0].identity,
            transport: found[0].transport,
            purpose_tag: name_purpose(),
        }),
{
}

/// With no device attached, or no discovery service to ask, the discovery
/// ends at once in the failure that tells the two apart, and no session is
/// opened.
pub proof fn failed_enumeration_ends_the_discovery(discovery: DiscoveryView)
    requires
        discovery.phase is Enumerating,
    ensures
        discovery.step(EventView::Enumerated(Some(Seq::empty()))) == discovery.fail(
            ErrorView::NoDevicesFound,
        ),
        discovery.step(EventView::Enumerated(None)) == discovery.fail(
            ErrorView::EnumerationUnavailable,
        ),
        discovery.fail(ErrorView::NoDevicesFound).0.outcome() == Err::<Seq<DeviceView>, ErrorView>(
            ErrorView::NoDevicesFound,
        ),
{
}

/// Once the devices are known, no step changes the length of the list, its
/// order, or the identity and transport of any device: whatever the devices
/// answer, and in whatever order answers come in, the list that is shown is
/// in discovery order. Only the device whose turn it is can get a name.
pub proof fn steps_keep_discovery_order(discovery: DiscoveryView, event: EventView)
    requires
        !(discovery.phase is Enumerating),
    ensures
        ({
            let after = discovery.step(event).0.devices;
            &&& after.len() == discovery.devices.len()
            &&& forall|i: int|
                0 <= i < after.len() ==> {
                    &&& (#[trigger] after[i]).identity == discovery.devices[i].identity
                    &&& after[i].transport == discovery.devices[i].transport
                    &&& i != discovery.resolved ==> after[i] == discovery.devices[i]
                }
        }),
{
}

/// No answer of a device makes the discovery fail: a device that cannot be
/// reached, or gives no name, is passed over, and the discovery goes on to
/// the next device or ends well.
pub proof fn device_failures_are_absorbed(discovery: DiscoveryView, event: EventView)
    requires
        discovery.consistent(),
        discovery.awaits(event),
        !(discovery.phase is Enumerating),
        !(discovery.phase is Aborting),
    ensures
        !(discovery.step(event).0.phase matches DiscoveryPhaseView::Done(Some(_))),
        discovery.phase is Opening && event == EventView::SessionOpened(false) ==> {
            &&& discovery.step(event).0.devices == discovery.devices
            &&& discovery.step(event).0.resolved == discovery.resolved + 1
        },
{
    if discovery.phase is Opening && event == EventView::SessionOpened(false) {
        assert(resolve_name(discovery.devices, discovery.resolved as int, None)
            =~= discovery.devices);
    }
}

/// At most one session is live at any time: a session is opened only when
/// none is held, or when the one that is held has been closed or has failed.
pub proof fn one_session_at_a_time(discovery: DiscoveryView, event: EventView)
    requires
        discovery.consistent(),
        discovery.step(event).1 is OpenSession,
    ensures
        match discovery.phase {
            DiscoveryPhaseView::Enumerating => true,
            DiscoveryPhaseView::Opening(session) => event is SessionOpened
                && session.establish(event->SessionOpened_0).0.state.is_final(),
            DiscoveryPhaseView::Closing(session, _) => session.state.is_final(),
            _ => false,
        },
{
}

/// A session that is live is never let go of: the step that follows either
/// takes in its handshake, after which it is ready or has failed for good,
/// or has the driver close it and keeps it as closed.
pub proof fn live_sessions_are_closed(discovery: DiscoveryView, event: EventView)
    requires
        discovery.consistent(),
        discovery.session() is Some,
        !discovery.session()->0.state.is_final(),
    ensures
        ({
            let after = discovery.step(event);
            let held = discovery.session()->0;
            ||| discovery.phase is Opening && event == EventView::SessionOpened(true)
                && after.0.session() == Some(held.with_state(crate::session::StateView::Ready))
            ||| discovery.phase is Opening && event == EventView::SessionOpened(false)
            ||| after.1 is CloseSession && after.0.session() == Some(held.close())
        }),
{
}

/// Once the devices are known, each step that is not taken at the end
/// brings the end nearer, and three steps for each device are enough.
pub proof fn each_step_brings_the_end_nearer(discovery: DiscoveryView, event: EventView)
    requires
        discovery.consistent(),
        !(discovery.phase is Enumerating),
        !(discovery.phase is Done),
    ensures
        0 <= discovery.step(event).0.steps_left() < discovery.steps_left(),
        discovery.steps_left() <= 3 * discovery.devices.len(),
        discovery.step(event).0.steps_left() == 0 <==> discovery.step(event).0.phase is Done,
{
}

/// Whatever comes in, and in whatever order, a discovery stays consistent.
pub proof fn every_run_is_consistent(discovery: DiscoveryView, events: Seq<EventView>)
    requires
        discovery.consistent(),
    ensures
        discovery.run(events).consistent(),
    decreases events.len(),
{
    if events.len() > 0 {
        steps_keep_consistency(discovery, events[0]);
        every_run_is_consistent(discovery.step(events[0]).0, events.drop_first());
    }
}

/// Once the devices are known, the list stays in discovery order to the end:
/// whatever the devices answer, whether they answer at all, and whatever
/// else comes in, the list holds the same devices in the same order.
pub proof fn every_run_keeps_discovery_order(discovery: DiscoveryView, events: Seq<EventView>)
    requires
        !(discovery.phase is Enumerating),
    ensures
        same_devices(discovery.run(events).devices, discovery.devices),
        !(discovery.run(events).phase is Enumerating),
    decreases events.len(),
{
    if events.len() > 0 {
        let next = discovery.step(events[0]).0;
        steps_keep_discovery_order(discovery, events[0]);
        every_run_keeps_discovery_order(next, events.drop_first());
    }
}

/// Discovering the same devices twice yields them in the same order both
/// times, which is the order they were found in, whatever the devices answer
/// the one time and the other.
pub proof fn same_devices_are_listed_in_the_same_order(
    found: Seq<DeviceView>,
    first: Seq<EventView>,
    second: Seq<EventView>,
)
    requires
        found.len() > 0,
    ensures
        ({
            let listed = DiscoveryView::start().0.step(EventView::Enumerated(Some(found))).0;
            &&& same_devices(listed.run(first).devices, found)
            &&& same_devices(listed.run(second).devices, found)
            &&& same_devices(listed.run(first).devices, listed.run(second).devices)
        }),
{
    let listed = DiscoveryView::start().0.step(EventView::Enumerated(Some(found))).0;
    every_run_keeps_discovery_order(listed, first);
    every_run_keeps_discovery_order(listed, second);
}

/// Every discovery ends: once the devices are known and as many events have
/// come in as there were steps left, the discovery has ended.
pub proof fn every_run_ends(discovery: DiscoveryView, events: Seq<EventView>)
    requires
        discovery.consistent(),
        !(discovery.phase is Enumerating),
        events.len() >= discovery.steps_left(),
    ensures
        discovery.run(events).phase is Done,
    decreases events.len(),
{
    if discovery.phase is Done {
        if events.len() > 0 {
            every_run_ends(discovery.step(events[0]).0, events.drop_first());
        }
    } else {
        each_step_brings_the_end_nearer(discovery, events[0]);
        steps_keep_consistency(discovery, events[0]);
        every_run_ends(discovery.step(events[0]).0, events.drop_first());
    }
}

} // verus!
