//! A light check that a device answers at a network address.
//!
//! The check reads no credential and changes none: what it finds is advice.
//! A device that does not answer may simply be off the network.

use crate::device::{DeviceDescriptor, DeviceView, NetworkAddress};
use vstd::prelude::*;

verus! {

/// The port a liveness session is opened on.
pub const PROBE_PORT: u16 = 69;

/// The purpose a liveness session is opened for.
pub open spec fn probe_purpose() -> Seq<char> {
    "pairing_gen_test"@
}

/// What a check found.
#[derive(Debug, PartialEq, Eq)]
pub enum Outcome {
    Reachable,
    Unreachable(String),
}

/// The mathematical value of an [`Outcome`].
pub enum OutcomeView {
    Reachable,
    Unreachable(Seq<char>),
}

impl View for Outcome {
    type V = OutcomeView;

    open spec fn view(&self) -> OutcomeView {
        match self {
            Outcome::Reachable => OutcomeView::Reachable,
            Outcome::Unreachable(reason) => OutcomeView::Unreachable(reason@),
        }
    }
}

impl Clone for Outcome {
    fn clone(&self) -> (copy: Self)
        ensures
            copy@ == self@,
    {
        match self {
            Outcome::Reachable => Outcome::Reachable,
            Outcome::Unreachable(reason) => Outcome::Unreachable(reason.clone()),
        }
    }
}

/// Where the driver is to open a liveness session.
#[derive(Debug, PartialEq, Eq)]
pub struct ProbeTarget {
    pub identity: String,
    pub address: NetworkAddress,
    pub port: u16,
    pub purpose_tag: String,
}

/// The mathematical value of a [`ProbeTarget`].
pub struct ProbeView {
    pub identity: Seq<char>,
    pub address: NetworkAddress,
    pub port: u16,
    pub purpose_tag: Seq<char>,
}

impl View for ProbeTarget {
    type V = ProbeView;

    open spec fn view(&self) -> ProbeView {
        ProbeView {
            identity: self.identity@,
            address: self.address,
            port: self.port,
            purpose_tag: self.purpose_tag@,
        }
    }
}

impl Clone for ProbeTarget {
    fn clone(&self) -> (copy: Self)
        ensures
            copy@ == self@,
    {
        ProbeTarget {
            identity: self.identity.clone(),
            address: self.address,
            port: self.port,
            purpose_tag: self.purpose_tag.clone(),
        }
    }
}

/// What a check needs before it can be settled.
#[derive(Debug, PartialEq, Eq)]
pub enum Check {
    /// Nothing: the outcome is known, and no session is to be opened.
    Settled(Outcome),
    /// One liveness session against the target.
    Probe(ProbeTarget),
}

/// The mathematical value of a [`Check`].
pub enum CheckView {
    Settled(OutcomeView),
    Probe(ProbeView),
}

impl View for Check {
    type V = CheckView;

    open spec fn view(&self) -> CheckView {
        match self {
            Check::Settled(outcome) => CheckView::Settled(outcome@),
            Check::Probe(target) => CheckView::Probe(target@),
        }
    }
}

/// How a check of `device` at `address` begins. A device that was found over
/// the network has shown by that that it can be reached: the check is
/// settled at once. Any other device is probed at the address given.
pub open spec fn begin_check(device: DeviceView, address: NetworkAddress) -> CheckView {
    if device.transport.is_network() {
        CheckView::Settled(OutcomeView::Reachable)
    } else {
        CheckView::Probe(probe_of(device, address))
    }
}

/// The liveness session that checks `device` at `address`.
pub open spec fn probe_of(device: DeviceView, address: NetworkAddress) -> ProbeView {
    ProbeView {
        identity: device.identity,
        address,
        port: PROBE_PORT,
        purpose_tag: probe_purpose(),
    }
}

/// What a check of `device` finds once the probe, where one was asked for,
/// has ended in `probed`.
pub open spec fn check_outcome(
    device: DeviceView,
    address: NetworkAddress,
    probed: OutcomeView,
) -> OutcomeView {
    match begin_check(device, address) {
        CheckView::Settled(outcome) => outcome,
        CheckView::Probe(_) => probed,
    }
}

/// Checks that a device answers over the network.
pub struct HeartbeatValidator {}

impl HeartbeatValidator {
    /// Begins a check of `device` at `address`.
    pub fn begin(device: &DeviceDescriptor, address: NetworkAddress) -> (check: Check)
        ensures
            check@ == begin_check(device@, address),
    {
        if device.is_network() {
            Check::Settled(Outcome::Reachable)
        } else {
            Check::Probe(
                ProbeTarget {
                    identity: device.identity().clone(),
                    address,
                    port: PROBE_PORT,
                    purpose_tag: String::from_str("pairing_gen_test"),
                },
            )
        }
    }

    /// Settles a check of `device` at `address`, given how the probe ended.
    pub fn validate(device: &DeviceDescriptor, address: NetworkAddress, probed: Outcome) -> (outcome:
        Outcome)
        ensures
            outcome@ == check_outcome(device@, address, probed@),
    {
        match Self::begin(device, address) {
            Check::Settled(outcome) => outcome,
            Check::Probe(_) => probed,
        }
    }
}

/// A device that was found over the network is reachable, at whatever
/// address and whatever a probe might have said, and the check asks for no
/// session.
pub proof fn network_discovery_proves_reachability(
    device: DeviceView,
    address: NetworkAddress,
    probed: OutcomeView,
)
    requires
        device.transport.is_network(),
    ensures
        begin_check(device, address) == CheckView::Settled(OutcomeView::Reachable),
        check_outcome(device, address, probed) == OutcomeView::Reachable,
{
}

/// A device that was found on the wire is probed at the address given, under
/// its own identity, and the check finds what the probe found.
pub proof fn wired_device_is_probed(device: DeviceView, address: NetworkAddress, probed: OutcomeView)
    requires
        !device.transport.is_network(),
    ensures
        begin_check(device, address) == CheckView::Probe(probe_of(device, address)),
        check_outcome(device, address, probed) == probed,
{
}

} // verus!
