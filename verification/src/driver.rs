//! The vocabulary between this crate and the driver that does its I/O.
//!
//! A workflow hands the driver one [`Action`] at a time. The driver carries
//! it out and hands back the [`Event`] that tells how it went. The driver
//! decides nothing: it sends what it is told to send and reports what came
//! back.

use crate::device::{DeviceDescriptor, DeviceView, NetworkAddress, Transport};
use crate::heartbeat::{Outcome, OutcomeView, ProbeTarget, ProbeView};
use crate::session::{Request, RequestView};
use crate::store::{ExportedFile, FileView};
use crate::views::option_view;
use vstd::prelude::*;

verus! {

/// What the driver is to do next.
#[derive(Debug, PartialEq, Eq)]
pub enum Action {
    /// Ask the discovery service which devices can be reached.
    Enumerate,
    /// Open a session against the device, on the transport it was discovered
    /// on and under the purpose given.
    OpenSession { identity: String, transport: Transport, purpose_tag: String },
    /// Send the request on the open session.
    Send(Request),
    /// Close the open session and release what it holds.
    CloseSession,
    /// Read the credential the host holds for the device.
    ReadPairingRecord { identity: String },
    /// Let the caller choose the directory an export goes to.
    ChooseDestination,
    /// Write the file, whole or not at all.
    WriteFile(ExportedFile),
    /// Let the caller give the network address of the device.
    AskAddress,
    /// Open a liveness session against the target.
    Probe(ProbeTarget),
    /// Nothing: the workflow has ended.
    Finish,
}

/// The mathematical value of an [`Action`].
pub enum ActionView {
    Enumerate,
    OpenSession { identity: Seq<char>, transport: Transport, purpose_tag: Seq<char> },
    Send(RequestView),
    CloseSession,
    ReadPairingRecord { identity: Seq<char> },
    ChooseDestination,
    WriteFile(FileView),
    AskAddress,
    Probe(ProbeView),
    Finish,
}

impl View for Action {
    type V = ActionView;

    open spec fn view(&self) -> ActionView {
        match self {
            Action::Enumerate => ActionView::Enumerate,
            Action::OpenSession { identity, transport, purpose_tag } => ActionView::OpenSession {
                identity: identity@,
                transport: *transport,
                purpose_tag: purpose_tag@,
            },
            Action::Send(request) => ActionView::Send(request@),
            Action::CloseSession => ActionView::CloseSession,
            Action::ReadPairingRecord { identity } => ActionView::ReadPairingRecord {
                identity: identity@,
            },
            Action::ChooseDestination => ActionView::ChooseDestination,
            Action::WriteFile(file) => ActionView::WriteFile(file@),
            Action::AskAddress => ActionView::AskAddress,
            Action::Probe(target) => ActionView::Probe(target@),
            Action::Finish => ActionView::Finish,
        }
    }
}

impl ActionView {
    /// The action sends bytes to a device, or opens a channel to one.
    pub open spec fn reaches_device(self) -> bool {
        self is OpenSession || self is Send || self is Probe
    }
}

/// What a device told the lower layer of a write, as far as it matters here.
#[derive(Clone, Copy, Debug, PartialEq, Eq, Structural)]
pub enum WriteStatus {
    /// The write went through.
    Success,
    /// The device refused without saying why.
    UnknownError,
    /// Any other failure, a timeout among them.
    OtherError,
}

/// How an action went.
#[derive(Debug, PartialEq, Eq)]
pub enum Event {
    /// The devices that discovery found, in the order it found them, or
    /// `None` where the discovery service could not be reached.
    Enumerated(Option<Vec<DeviceDescriptor>>),
    /// Whether the handshake of a new session succeeded.
    SessionOpened(bool),
    /// The name the device gave, or `None` where it declined.
    NameReceived(Option<String>),
    /// What the device said of a write.
    ValueWritten(WriteStatus),
    /// Whether the pairing went through.
    PairingFinished(bool),
    /// The session was closed.
    SessionClosed,
    /// The payload of the credential the host holds, or `None` where it
    /// holds none.
    RecordRead(Option<Vec<u8>>),
    /// The directory the caller chose, or `None` where the caller declined.
    DestinationChosen(Option<String>),
    /// Whether the file was written.
    FileWritten(bool),
    /// The address the caller gave, or `None` where the text was no address.
    AddressEntered(Option<NetworkAddress>),
    /// What the liveness session found.
    Probed(Outcome),
}

/// The mathematical value of an [`Event`].
pub enum EventView {
    Enumerated(Option<Seq<DeviceView>>),
    SessionOpened(bool),
    NameReceived(Option<Seq<char>>),
    ValueWritten(WriteStatus),
    PairingFinished(bool),
    SessionClosed,
    RecordRead(Option<Seq<u8>>),
    DestinationChosen(Option<Seq<char>>),
    FileWritten(bool),
    AddressEntered(Option<NetworkAddress>),
    Probed(OutcomeView),
}

/// The values of a list of descriptors, in the order of the list.
pub open spec fn device_views(devices: Seq<DeviceDescriptor>) -> Seq<DeviceView> {
    devices.map_values(|device: DeviceDescriptor| device@)
}

impl View for Event {
    type V = EventView;

    open spec fn view(&self) -> EventView {
        match self {
            Event::Enumerated(found) => EventView::Enumerated(
                match found {
                    Some(devices) => Some(device_views(devices@)),
                    None => None,
                },
            ),
            Event::SessionOpened(reachable) => EventView::SessionOpened(*reachable),
            Event::NameReceived(name) => EventView::NameReceived(option_view(*name)),
            Event::ValueWritten(status) => EventView::ValueWritten(*status),
            Event::PairingFinished(paired) => EventView::PairingFinished(*paired),
            Event::SessionClosed => EventView::SessionClosed,
            Event::RecordRead(payload) => EventView::RecordRead(option_view(*payload)),
            Event::DestinationChosen(directory) => EventView::DestinationChosen(
                option_view(*directory),
            ),
            Event::FileWritten(written) => EventView::FileWritten(*written),
            Event::AddressEntered(address) => EventView::AddressEntered(*address),
            Event::Probed(outcome) => EventView::Probed(outcome@),
        }
    }
}

} // verus!
