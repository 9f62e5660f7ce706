//! The four operations on a selected device, each as a workflow that tells
//! the driver what to do next.
//!
//! An operation holds at most one session, and has the driver close it on
//! every path before it ends. Nothing is tried twice: each failure ends the
//! operation and is handed to the caller as it is.

use crate::device::{DeviceDescriptor, DeviceView, NetworkAddress, Transport};
use crate::driver::{Action, ActionView, Event, EventView, WriteStatus};
use crate::error::{ErrorView, PairingError};
use crate::heartbeat::{
    begin_check, check_outcome, Check, CheckView, HeartbeatValidator, Outcome, OutcomeView,
};
use crate::session::{
    LockdownSession, SessionView, SettingValue, SettingView, WriteReply, WriteReplyView,
};
use crate::store::{
    confirm_write, read_record, refresh_record, ExportedFile, FileView, PairingRecord,
    PairingRecordStore, RecordView, StoreView,
};
use crate::views::{option_view, result_view};
use vstd::prelude::*;

verus! {

/// What the caller can ask for.
#[derive(Clone, Copy, Debug, PartialEq, Eq, Structural)]
pub enum Operation {
    /// Write the credential the host holds for the device to a file.
    ExportPairingFile,
    /// Check that the device answers over the network.
    TestWifiSync,
    /// Switch on the device-side setting that allows syncing over the
    /// network.
    EnableWifiSync,
    /// Pair anew over the wire, then export the new credential.
    RegeneratePairing,
}

impl Operation {
    /// The operation at `index` of the menu, in the order of the variants.
    pub open spec fn at(index: int) -> Option<Operation> {
        if index == 0 {
            Some(Operation::ExportPairingFile)
        } else if index == 1 {
            Some(Operation::TestWifiSync)
        } else if index == 2 {
            Some(Operation::EnableWifiSync)
        } else if index == 3 {
            Some(Operation::RegeneratePairing)
        } else {
            None
        }
    }

    /// The operation at `index` of the menu.
    pub fn from_index(index: usize) -> (operation: Option<Operation>)
        ensures
            operation == Operation::at(index as int),
    {
        if index == 0 {
            Some(Operation::ExportPairingFile)
        } else if index == 1 {
            Some(Operation::TestWifiSync)
        } else if index == 2 {
            Some(Operation::EnableWifiSync)
        } else if index == 3 {
            Some(Operation::RegeneratePairing)
        } else {
            None
        }
    }

    /// The line of the menu that stands for the operation.
    pub open spec fn title(self) -> Seq<char> {
        match self {
            Operation::ExportPairingFile => "Export current pairing file"@,
            Operation::TestWifiSync => "Test current pairing file for WiFi sync"@,
            Operation::EnableWifiSync => "Turn on WiFi sync"@,
            Operation::RegeneratePairing => "Generate a new pairing file"@,
        }
    }

    /// The line of the menu that stands for the operation.
    pub fn label(&self) -> (text: String)
        ensures
            text@ == self.title(),
    {
        match self {
            Operation::ExportPairingFile => String::from_str("Export current pairing file"),
            Operation::TestWifiSync => String::from_str("Test current pairing file for WiFi sync"),
            Operation::EnableWifiSync => String::from_str("Turn on WiFi sync"),
            Operation::RegeneratePairing => String::from_str("Generate a new pairing file"),
        }
    }

    /// The purpose that the operation names to the device.
    pub open spec fn purpose(self) -> Seq<char> {
        match self {
            Operation::ExportPairingFile => "pairing_gen"@,
            Operation::TestWifiSync => "pairing_gen_test"@,
            Operation::EnableWifiSync => "pairing_file_wifi_on"@,
            Operation::RegeneratePairing => "pairing_file_gen"@,
        }
    }

    fn purpose_tag(&self) -> (text: String)
        ensures
            text@ == self.purpose(),
    {
        match self {
            Operation::ExportPairingFile => String::from_str("pairing_gen"),
            Operation::TestWifiSync => String::from_str("pairing_gen_test"),
            Operation::EnableWifiSync => String::from_str("pairing_file_wifi_on"),
            Operation::RegeneratePairing => String::from_str("pairing_file_gen"),
        }
    }
}

/// The domain of the setting that allows syncing over the network.
pub open spec fn wifi_sync_domain() -> Seq<char> {
    "com.apple.mobile.wireless_lockdown"@
}

/// The key of the setting that allows syncing over the network.
pub open spec fn wifi_sync_key() -> Seq<char> {
    "EnableWifiDebugging"@
}

/// What the operator has to do before the setting can be written.
pub open spec fn passcode_hint() -> Seq<char> {
    "You need to set a passcode on your device to enable WiFi sync"@
}

/// What a write status means for the write of the network-sync setting. A
/// device refuses that write without a reason exactly when no passcode is
/// set on it; every other failure has no remedy.
pub open spec fn interpret_write(status: WriteStatus) -> WriteReplyView {
    match status {
        WriteStatus::Success => WriteReplyView::Accepted,
        WriteStatus::UnknownError => WriteReplyView::Rejected(passcode_hint()),
        WriteStatus::OtherError => WriteReplyView::Failed,
    }
}

/// Says what a write status means for the write of the network-sync
/// setting.
pub fn write_reply(status: WriteStatus) -> (reply: WriteReply)
    ensures
        reply@ == interpret_write(status),
{
    match status {
        WriteStatus::Success => WriteReply::Accepted,
        WriteStatus::UnknownError => WriteReply::Rejected(
            String::from_str("You need to set a passcode on your device to enable WiFi sync"),
        ),
        WriteStatus::OtherError => WriteReply::Failed,
    }
}

/// What an operation that ended well has achieved.
#[derive(Debug, PartialEq, Eq)]
pub enum Completion {
    /// The credential of the device was written to the file.
    Exported { identity: String, directory: String, file_name: String },
    /// The check was made, and this is what it found.
    WifiSyncTested(Outcome),
    /// The setting is on.
    WifiSyncEnabled,
}

/// The mathematical value of a [`Completion`].
pub enum CompletionView {
    Exported { identity: Seq<char>, directory: Seq<char>, file_name: Seq<char> },
    WifiSyncTested(OutcomeView),
    WifiSyncEnabled,
}

impl View for Completion {
    type V = CompletionView;

    open spec fn view(&self) -> CompletionView {
        match self {
            Completion::Exported { identity, directory, file_name } => CompletionView::Exported {
                identity: identity@,
                directory: directory@,
                file_name: file_name@,
            },
            Completion::WifiSyncTested(outcome) => CompletionView::WifiSyncTested(outcome@),
            Completion::WifiSyncEnabled => CompletionView::WifiSyncEnabled,
        }
    }
}

/// How an operation ended.
pub type Ending = Result<CompletionView, ErrorView>;

/// What follows once the session is closed.
pub enum NextView {
    /// The operation ends.
    Finish(Ending),
    /// The new credential is exported.
    Export(RecordView),
}

/// Where an operation stands, with the one session it may hold.
pub enum PhaseView {
    /// The host was asked for the credential.
    AwaitRecord,
    /// The caller was asked where the record is to go.
    AwaitDestination(RecordView),
    /// The driver was told to write the file.
    AwaitWrite(FileView),
    /// The caller was asked for the address of the device.
    AwaitAddress,
    /// A liveness session against the address was asked for.
    AwaitProbe(NetworkAddress),
    /// The session is being opened.
    AwaitOpen(SessionView),
    /// The write was sent.
    AwaitValue(SessionView),
    /// The pairing request was sent.
    AwaitPairing(SessionView),
    /// The pairing went through, and the host was asked for the credential
    /// that it made.
    AwaitPairedRecord(SessionView),
    /// The session is being closed.
    Closing(SessionView, NextView),
    /// The operation has ended.
    Done(Ending),
}

/// The mathematical value of a [`SessionOrchestrator`].
pub struct OrchestratorView {
    pub operation: Operation,
    pub device: DeviceView,
    pub store: StoreView,
    pub phase: PhaseView,
}

impl OrchestratorView {
    pub open spec fn with_phase(self, phase: PhaseView) -> OrchestratorView {
        OrchestratorView { phase, ..self }
    }

    /// The operation ends.
    pub open spec fn finish(self, outcome: Ending) -> (OrchestratorView, ActionView) {
        (self.with_phase(PhaseView::Done(outcome)), ActionView::Finish)
    }

    /// The session is closed, and `next` follows.
    pub open spec fn close_then(self, session: SessionView, next: NextView) -> (
        OrchestratorView,
        ActionView,
    ) {
        (self.with_phase(PhaseView::Closing(session.close(), next)), ActionView::CloseSession)
    }

    /// The record is exported: the caller is asked where to.
    pub open spec fn export(self, record: RecordView) -> (OrchestratorView, ActionView) {
        (self.with_phase(PhaseView::AwaitDestination(record)), ActionView::ChooseDestination)
    }

    /// The session that the operation opens against its device.
    pub open spec fn new_session(self) -> SessionView {
        SessionView::opening(self.device, self.operation.purpose())
    }

    /// The session is opened.
    pub open spec fn open_session(self) -> (OrchestratorView, ActionView) {
        (
            self.with_phase(PhaseView::AwaitOpen(self.new_session())),
            ActionView::OpenSession {
                identity: self.device.identity,
                transport: self.device.transport,
                purpose_tag: self.operation.purpose(),
            },
        )
    }

    /// An operation on `device` as it starts, and its first action.
    pub open spec fn start(operation: Operation, device: DeviceView, store: StoreView) -> (
        OrchestratorView,
        ActionView,
    ) {
        let fresh = OrchestratorView { operation, device, store, phase: PhaseView::AwaitRecord };
        match operation {
            Operation::ExportPairingFile => (
                fresh,
                ActionView::ReadPairingRecord { identity: device.identity },
            ),
            Operation::TestWifiSync => match device.transport {
                Transport::Network(_, _) => fresh.finish(
                    Ok(CompletionView::WifiSyncTested(OutcomeView::Reachable)),
                ),
                Transport::Usb => (fresh.with_phase(PhaseView::AwaitAddress), ActionView::AskAddress),
            },
            Operation::EnableWifiSync => fresh.open_session(),
            Operation::RegeneratePairing => if device.transport.is_network() {
                fresh.finish(Err(ErrorView::WrongTransportForPairing))
            } else {
                fresh.open_session()
            },
        }
    }

    /// The session is ready: the operation sends its one request.
    pub open spec fn send_request(self, session: SessionView) -> (OrchestratorView, ActionView) {
        let request = match self.operation {
            Operation::EnableWifiSync => session.set_value(
                wifi_sync_domain(),
                wifi_sync_key(),
                SettingView::Boolean(true),
            ),
            Operation::RegeneratePairing => session.request_pairing(),
            _ => Err(ErrorView::ProtocolError),
        };
        match request {
            Ok(request) => (
                self.with_phase(
                    if self.operation == Operation::EnableWifiSync {
                        PhaseView::AwaitValue(session)
                    } else {
                        PhaseView::AwaitPairing(session)
                    },
                ),
                ActionView::Send(request),
            ),
            Err(failure) => self.close_then(session, NextView::Finish(Err(failure))),
        }
    }

    /// The pairing has ended with the payload of the new credential, or
    /// without one: the session is closed, and the credential is exported or
    /// the operation ends in the failure.
    pub open spec fn paired(self, session: SessionView, reply: Option<Seq<u8>>) -> (
        OrchestratorView,
        ActionView,
    ) {
        let (after, result) = session.pairing_completed(reply);
        match result {
            Ok(record) => self.close_then(after, NextView::Export(record)),
            Err(failure) => self.close_then(after, NextView::Finish(Err(failure))),
        }
    }

    /// The driver answered out of turn: the session, where one is held, is
    /// closed, and the operation ends in a protocol error.
    pub open spec fn out_of_turn(self) -> (OrchestratorView, ActionView) {
        match self.phase {
            PhaseView::AwaitOpen(session) => self.close_then(
                session,
                NextView::Finish(Err(ErrorView::ProtocolError)),
            ),
            PhaseView::AwaitValue(session) => self.close_then(
                session,
                NextView::Finish(Err(ErrorView::ProtocolError)),
            ),
            PhaseView::AwaitPairing(session) => self.close_then(
                session,
                NextView::Finish(Err(ErrorView::ProtocolError)),
            ),
            PhaseView::AwaitPairedRecord(session) => self.close_then(
                session,
                NextView::Finish(Err(ErrorView::ProtocolError)),
            ),
            _ => self.finish(Err(ErrorView::ProtocolError)),
        }
    }

    /// The operation after `event`, and what the driver is to do next.
    pub open spec fn step(self, event: EventView) -> (OrchestratorView, ActionView) {
        match (self.phase, event) {
            (PhaseView::Done(_), _) => (self, ActionView::Finish),
            (PhaseView::AwaitRecord, EventView::RecordRead(on_host)) => {
                let store = refresh_record(self.store, self.device.identity, on_host);
                let seen = OrchestratorView { store, ..self };
                match read_record(store, self.device.identity) {
                    Ok(record) => seen.export(record),
                    Err(failure) => seen.finish(Err(failure)),
                }
            },
            (PhaseView::AwaitDestination(record), EventView::DestinationChosen(destination)) => {
                match record.export(destination) {
                    Ok(file) => (
                        self.with_phase(PhaseView::AwaitWrite(file)),
                        ActionView::WriteFile(file),
                    ),
                    Err(failure) => self.finish(Err(failure)),
                }
            },
            (PhaseView::AwaitWrite(file), EventView::FileWritten(written)) => {
                match confirm_write(written) {
                    Ok(_) => self.finish(
                        Ok(
                            CompletionView::Exported {
                                identity: self.device.identity,
                                directory: file.directory,
                                file_name: file.file_name,
                            },
                        ),
                    ),
                    Err(failure) => self.finish(Err(failure)),
                }
            },
            (PhaseView::AwaitAddress, EventView::AddressEntered(entered)) => match entered {
                None => self.finish(Err(ErrorView::InvalidAddress)),
                Some(address) => match begin_check(self.device, address) {
                    CheckView::Probe(target) => (
                        self.with_phase(PhaseView::AwaitProbe(address)),
                        ActionView::Probe(target),
                    ),
                    CheckView::Settled(outcome) => self.finish(
                        Ok(CompletionView::WifiSyncTested(outcome)),
                    ),
                },
            },
            (PhaseView::AwaitProbe(address), EventView::Probed(probed)) => self.finish(
                Ok(CompletionView::WifiSyncTested(check_outcome(self.device, address, probed))),
            ),
            (PhaseView::AwaitOpen(session), EventView::SessionOpened(reachable)) => {
                let (opened, result) = session.establish(reachable);
                match result {
                    Ok(_) => self.send_request(opened),
                    Err(failure) => self.finish(Err(failure)),
                }
            },
            (PhaseView::AwaitValue(session), EventView::ValueWritten(status)) => {
                let (after, result) = session.value_written(interpret_write(status));
                self.close_then(
                    after,
                    NextView::Finish(
                        match result {
                            Ok(_) => Ok(CompletionView::WifiSyncEnabled),
                            Err(failure) => Err(failure),
                        },
                    ),
                )
            },
            (PhaseView::AwaitPairing(session), EventView::PairingFinished(paired)) => {
                if paired {
                    (
                        self.with_phase(PhaseView::AwaitPairedRecord(session)),
                        ActionView::ReadPairingRecord { identity: self.device.identity },
                    )
                } else {
                    self.paired(session, None)
                }
            },
            (PhaseView::AwaitPairedRecord(session), EventView::RecordRead(on_host)) => {
                let store = refresh_record(self.store, self.device.identity, on_host);
                let seen = OrchestratorView { store, ..self };
                match on_host {
                    Some(payload) => seen.paired(session, Some(payload)),
                    None => seen.close_then(
                        session,
                        NextView::Finish(Err(ErrorView::PairingRecordNotFound)),
                    ),
                }
            },
            (PhaseView::Closing(_, next), EventView::SessionClosed) => match next {
                NextView::Finish(outcome) => self.finish(outcome),
                NextView::Export(record) => self.export(record),
            },
            _ => self.out_of_turn(),
        }
    }

    /// The session is the one that the operation opened against its device.
    pub open spec fn holds_own(self, session: SessionView) -> bool {
        session.device == self.device && session.purpose_tag == self.operation.purpose()
    }

    /// The record is the credential that the store holds for the device.
    pub open spec fn holds_record(self, record: RecordView) -> bool {
        &&& record.owner_identity == self.device.identity
        &&& read_record(self.store, self.device.identity) == Ok::<RecordView, ErrorView>(record)
    }

    /// The operation is one that exports: the plain export, or a new pairing
    /// of a device on the wire.
    pub open spec fn exports(self) -> bool {
        ||| self.operation == Operation::ExportPairingFile
        ||| self.operation == Operation::RegeneratePairing && !self.device.transport.is_network()
    }

    /// The operation is one that opens a session: the write of the setting,
    /// or a new pairing of a device on the wire.
    pub open spec fn opens_session(self) -> bool {
        ||| self.operation == Operation::EnableWifiSync
        ||| self.operation == Operation::RegeneratePairing && !self.device.transport.is_network()
    }

    /// The failure is one that the operation can end in.
    pub open spec fn can_fail_with(self, failure: ErrorView) -> bool {
        match failure {
            ErrorView::ProtocolError => true,
            ErrorView::PairingRecordNotFound => self.exports() && !self.store.dom().contains(
                self.device.identity,
            ),
            ErrorView::DestinationNotSelected => self.exports(),
            ErrorView::DestinationUnwritable => self.exports(),
            ErrorView::InvalidAddress => self.operation == Operation::TestWifiSync
                && !self.device.transport.is_network(),
            ErrorView::SessionOpenFailed => self.opens_session(),
            ErrorView::PreconditionUnmet(description) => self.operation
                == Operation::EnableWifiSync && description == passcode_hint(),
            ErrorView::WrongTransportForPairing => self.operation == Operation::RegeneratePairing
                && self.device.transport.is_network(),
            ErrorView::EnumerationUnavailable => false,
            ErrorView::NoDevicesFound => false,
            ErrorView::AttributeUnavailable => false,
        }
    }

    /// The outcome is one that the operation can end in.
    pub open spec fn can_end_in(self, outcome: Ending) -> bool {
        match outcome {
            Ok(CompletionView::Exported { identity, directory, file_name }) => {
                &&& self.exports()
                &&& identity == self.device.identity
                &&& file_name == crate::store::export_file_name(identity)
                &&& self.store.dom().contains(identity)
            },
            Ok(CompletionView::WifiSyncTested(found)) => {
                &&& self.operation == Operation::TestWifiSync
                &&& self.device.transport.is_network() ==> found == OutcomeView::Reachable
            },
            Ok(CompletionView::WifiSyncEnabled) => self.operation == Operation::EnableWifiSync,
            Err(failure) => self.can_fail_with(failure),
        }
    }

    /// What holds of every operation that began with
    /// [`OrchestratorView::start`] and went on by [`OrchestratorView::step`]:
    /// the phase is one of the operation, the session it holds is its own and
    /// in the state the phase says, and what is exported is the credential
    /// that the store holds for the device.
    pub open spec fn consistent(self) -> bool {
        match self.phase {
            PhaseView::AwaitRecord => self.operation == Operation::ExportPairingFile,
            PhaseView::AwaitDestination(record) => self.exports() && self.holds_record(record),
            PhaseView::AwaitWrite(file) => {
                &&& self.exports()
                &&& file.file_name == crate::store::export_file_name(self.device.identity)
                &&& self.holds_record(file.read_back(self.device.identity))
            },
            PhaseView::AwaitAddress => self.operation == Operation::TestWifiSync
                && !self.device.transport.is_network(),
            PhaseView::AwaitProbe(_) => self.operation == Operation::TestWifiSync
                && !self.device.transport.is_network(),
            PhaseView::AwaitOpen(session) => {
                &&& self.opens_session()
                &&& self.holds_own(session)
                &&& session.state is Opening
            },
            PhaseView::AwaitValue(session) => {
                &&& self.operation == Operation::EnableWifiSync
                &&& self.holds_own(session)
                &&& session.state is Ready
            },
            PhaseView::AwaitPairing(session) => {
                &&& self.operation == Operation::RegeneratePairing
                &&& !self.device.transport.is_network()
                &&& self.holds_own(session)
                &&& session.state is Ready
            },
            PhaseView::AwaitPairedRecord(session) => {
                &&& self.operation == Operation::RegeneratePairing
                &&& !self.device.transport.is_network()
                &&& self.holds_own(session)
                &&& session.state is Ready
            },
            PhaseView::Closing(session, next) => {
                &&& self.opens_session()
                &&& self.holds_own(session)
                &&& session.state.is_final()
                &&& match next {
                    NextView::Finish(outcome) => self.can_end_in(outcome),
                    NextView::Export(record) => self.operation == Operation::RegeneratePairing
                        && self.holds_record(record),
                }
            },
            PhaseView::Done(outcome) => self.can_end_in(outcome),
        }
    }

    /// A bound on the number of steps that are left.
    pub open spec fn steps_left(self) -> nat {
        match self.phase {
            PhaseView::AwaitOpen(_) => 6,
            PhaseView::AwaitValue(_) => 5,
            PhaseView::AwaitPairing(_) => 5,
            PhaseView::AwaitPairedRecord(_) => 4,
            PhaseView::Closing(_, NextView::Export(_)) => 3,
            PhaseView::AwaitRecord => 3,
            PhaseView::AwaitDestination(_) => 2,
            PhaseView::AwaitAddress => 2,
            PhaseView::AwaitWrite(_) => 1,
            PhaseView::AwaitProbe(_) => 1,
            PhaseView::Closing(_, NextView::Finish(_)) => 1,
            PhaseView::Done(_) => 0,
        }
    }

    /// The operation after the events came in, one after another.
    pub open spec fn run(self, events: Seq<EventView>) -> OrchestratorView
        decreases events.len(),
    {
        if events.len() == 0 {
            self
        } else {
            self.step(events[0]).0.run(events.drop_first())
        }
    }

    /// What the driver is told to do as the events come in, one action for
    /// each event.
    pub open spec fn actions(self, events: Seq<EventView>) -> Seq<ActionView>
        decreases events.len(),
    {
        if events.len() == 0 {
            Seq::empty()
        } else {
            seq![self.step(events[0]).1] + self.step(events[0]).0.actions(events.drop_first())
        }
    }

    /// How the operation ended, or a protocol error where it has not ended.
    pub open spec fn outcome(self) -> Ending {
        match self.phase {
            PhaseView::Done(outcome) => outcome,
            _ => Err(ErrorView::ProtocolError),
        }
    }

    /// The session the operation holds, if it holds one.
    pub open spec fn session(self) -> Option<SessionView> {
        match self.phase {
            PhaseView::AwaitOpen(session) => Some(session),
            PhaseView::AwaitValue(session) => Some(session),
            PhaseView::AwaitPairing(session) => Some(session),
            PhaseView::AwaitPairedRecord(session) => Some(session),
            PhaseView::Closing(session, _) => Some(session),
            _ => None,
        }
    }
}

enum Next {
    Finish(Result<Completion, PairingError>),
    Export(PairingRecord),
}

impl View for Next {
    type V = NextView;

    closed spec fn view(&self) -> NextView {
        match self {
            Next::Finish(outcome) => NextView::Finish(result_view(*outcome)),
            Next::Export(record) => NextView::Export(record@),
        }
    }
}

enum Phase {
    AwaitRecord,
    AwaitDestination(PairingRecord),
    AwaitWrite(ExportedFile),
    AwaitAddress,
    AwaitProbe(NetworkAddress),
    AwaitOpen(LockdownSession),
    AwaitValue(LockdownSession),
    AwaitPairing(LockdownSession),
    AwaitPairedRecord(LockdownSession),
    Closing(LockdownSession, Next),
    Done(Result<Completion, PairingError>),
}

impl View for Phase {
    type V = PhaseView;

    closed spec fn view(&self) -> PhaseView {
        match self {
            Phase::AwaitRecord => PhaseView::AwaitRecord,
            Phase::AwaitDestination(record) => PhaseView::AwaitDestination(record@),
            Phase::AwaitWrite(file) => PhaseView::AwaitWrite(file@),
            Phase::AwaitAddress => PhaseView::AwaitAddress,
            Phase::AwaitProbe(address) => PhaseView::AwaitProbe(*address),
            Phase::AwaitOpen(session) => PhaseView::AwaitOpen(session@),
            Phase::AwaitValue(session) => PhaseView::AwaitValue(session@),
            Phase::AwaitPairing(session) => PhaseView::AwaitPairing(session@),
            Phase::AwaitPairedRecord(session) => PhaseView::AwaitPairedRecord(session@),
            Phase::Closing(session, next) => PhaseView::Closing(session@, next@),
            Phase::Done(outcome) => PhaseView::Done(result_view(*outcome)),
        }
    }
}

/// What an operation works on, whatever phase it is in.
struct Frame {
    operation: Operation,
    device: DeviceDescriptor,
    store: PairingRecordStore,
}

/// One operation under way on one device. Every value of this type is
/// consistent in the sense of [`OrchestratorView::consistent`].
pub struct SessionOrchestrator {
    frame: Frame,
    phase: Phase,
}

impl View for SessionOrchestrator {
    type V = OrchestratorView;

    closed spec fn view(&self) -> OrchestratorView {
        self.frame.at(self.phase@)
    }
}

/// The operation ends in `outcome`.
fn done(outcome: Result<Completion, PairingError>) -> (result: (Phase, Action))
    ensures
        result.0@ == PhaseView::Done(result_view(outcome)),
        result.1@ == ActionView::Finish,
{
    (Phase::Done(outcome), Action::Finish)
}

/// The session is closed, and `next` follows.
fn closing(session: LockdownSession, next: Next) -> (result: (Phase, Action))
    ensures
        result.0@ == PhaseView::Closing(session@.close(), next@),
        result.1@ == ActionView::CloseSession,
{
    let mut session = session;
    session.close();
    (Phase::Closing(session, next), Action::CloseSession)
}

/// The record is exported: the caller is asked where to.
fn exporting(record: PairingRecord) -> (result: (Phase, Action))
    ensures
        result.0@ == PhaseView::AwaitDestination(record@),
        result.1@ == ActionView::ChooseDestination,
{
    (Phase::AwaitDestination(record), Action::ChooseDestination)
}

/// The pairing has ended with the payload of the new credential, or without
/// one: the session is closed, and the credential is exported or the
/// operation ends in the failure.
fn concluding(session: LockdownSession, reply: Option<Vec<u8>>) -> (result: (Phase, Action))
    ensures
        ({
            let (after, paired) = session@.pairing_completed(option_view(reply));
            result.0@ == PhaseView::Closing(
                after.close(),
                match paired {
                    Ok(record) => NextView::Export(record),
                    Err(failure) => NextView::Finish(Err(failure)),
                },
            )
        }),
        result.1@ == ActionView::CloseSession,
{
    let mut session = session;
    match session.pairing_completed(reply) {
        Ok(record) => closing(session, Next::Export(record)),
        Err(failure) => closing(session, Next::Finish(Err(failure))),
    }
}

impl Frame {
    /// The operation on this frame in `phase`.
    closed spec fn at(self, phase: PhaseView) -> OrchestratorView {
        OrchestratorView {
            operation: self.operation,
            device: self.device@,
            store: self.store@,
            phase,
        }
    }

    /// The session is opened.
    fn opening(&self) -> (result: (Phase, Action))
        ensures
            forall|phase: PhaseView|
                (self.at(result.0@), result.1@) == (#[trigger] self.at(phase)).open_session(),
    {
        let session = LockdownSession::open(self.device.clone(), self.operation.purpose_tag());
        let action = Action::OpenSession {
            identity: self.device.identity().clone(),
            transport: self.device.transport(),
            purpose_tag: self.operation.purpose_tag(),
        };
        (Phase::AwaitOpen(session), action)
    }

    /// The session is ready: the operation sends its one request.
    fn requesting(&self, session: LockdownSession) -> (result: (Phase, Action))
        ensures
            forall|phase: PhaseView|
                (self.at(result.0@), result.1@) == (#[trigger] self.at(phase)).send_request(
                    session@,
                ),
    {
        let request = match self.operation {
            Operation::EnableWifiSync => session.set_value(
                String::from_str("com.apple.mobile.wireless_lockdown"),
                String::from_str("EnableWifiDebugging"),
                SettingValue::Boolean(true),
            ),
            Operation::RegeneratePairing => session.request_pairing(),
            _ => Err(PairingError::ProtocolError),
        };
        match request {
            Ok(request) => {
                let phase = match self.operation {
                    Operation::EnableWifiSync => Phase::AwaitValue(session),
                    _ => Phase::AwaitPairing(session),
                };
                (phase, Action::Send(request))
            },
            Err(failure) => closing(session, Next::Finish(Err(failure))),
        }
    }
}

impl SessionOrchestrator {
    #[verifier::type_invariant]
    closed spec fn sound(&self) -> bool {
        self@.consistent()
    }

    /// Starts `operation` on `device`, with the credentials known so far.
    /// The action is the first thing the driver is to do.
    pub fn start(operation: Operation, device: DeviceDescriptor, store: PairingRecordStore) -> (result:
        (SessionOrchestrator, Action))
        ensures
            (result.0@, result.1@) == OrchestratorView::start(operation, device@, store@),
            result.0@.consistent(),
    {
        let frame = Frame { operation, device, store };
        let (phase, action) = match operation {
            Operation::ExportPairingFile => (
                Phase::AwaitRecord,
                Action::ReadPairingRecord { identity: frame.device.identity().clone() },
            ),
            Operation::TestWifiSync => match frame.device.transport() {
                Transport::Network(_, _) => done(
                    Ok(Completion::WifiSyncTested(Outcome::Reachable)),
                ),
                Transport::Usb => (Phase::AwaitAddress, Action::AskAddress),
            },
            Operation::EnableWifiSync => frame.opening(),
            Operation::RegeneratePairing => {
                if frame.device.is_network() {
                    done(Err(PairingError::WrongTransportForPairing))
                } else {
                    frame.opening()
                }
            },
        };
        proof {
            assert(frame.at(phase@) == OrchestratorView::start(operation, device@, store@).0);
            operations_start_consistent(operation, device@, store@);
        }
        (SessionOrchestrator { frame, phase }, action)
    }

    /// Takes in how the last action went and says what the driver is to do
    /// next. The operation that is handed back is consistent, as the one
    /// that was handed in is.
    pub fn step(self, event: Event) -> (result: (SessionOrchestrator, Action))
        ensures
            (result.0@, result.1@) == self@.step(event@),
            self@.consistent(),
            result.0@.consistent(),
    {
        proof {
            use_type_invariant(&self);
            operations_stay_consistent(self@, event@);
        }
        let SessionOrchestrator { frame, phase } = self;
        let mut frame = frame;
        let (phase, action) = match (phase, event) {
            (Phase::Done(outcome), _) => (Phase::Done(outcome), Action::Finish),
            (Phase::AwaitRecord, Event::RecordRead(on_host)) => {
                frame.store.refresh(frame.device.identity(), on_host);
                match frame.store.read(frame.device.identity()) {
                    Ok(record) => exporting(record),
                    Err(failure) => done(Err(failure)),
                }
            },
            (Phase::AwaitDestination(record), Event::DestinationChosen(destination)) => {
                match frame.store.export(&record, destination) {
                    Ok(file) => {
                        let action = Action::WriteFile(file.clone());
                        (Phase::AwaitWrite(file), action)
                    },
                    Err(failure) => done(Err(failure)),
                }
            },
            (Phase::AwaitWrite(file), Event::FileWritten(written)) => {
                match file.confirm(written) {
                    Ok(_) => done(
                        Ok(
                            Completion::Exported {
                                identity: frame.device.identity().clone(),
                                directory: file.directory().clone(),
                                file_name: file.file_name().clone(),
                            },
                        ),
                    ),
                    Err(failure) => done(Err(failure)),
                }
            },
            (Phase::AwaitAddress, Event::AddressEntered(entered)) => match entered {
                None => done(Err(PairingError::InvalidAddress)),
                Some(address) => match HeartbeatValidator::begin(&frame.device, address) {
                    Check::Probe(target) => (Phase::AwaitProbe(address), Action::Probe(target)),
                    Check::Settled(outcome) => done(Ok(Completion::WifiSyncTested(outcome))),
                },
            },
            (Phase::AwaitProbe(address), Event::Probed(probed)) => {
                let outcome = HeartbeatValidator::validate(&frame.device, address, probed);
                done(Ok(Completion::WifiSyncTested(outcome)))
            },
            (Phase::AwaitOpen(session), Event::SessionOpened(reachable)) => {
                let mut session = session;
                match session.establish(reachable) {
                    Ok(_) => frame.requesting(session),
                    Err(failure) => done(Err(failure)),
                }
            },
            (Phase::AwaitValue(session), Event::ValueWritten(status)) => {
                let mut session = session;
                let outcome = match session.value_written(write_reply(status)) {
                    Ok(_) => Ok(Completion::WifiSyncEnabled),
                    Err(failure) => Err(failure),
                };
                closing(session, Next::Finish(outcome))
            },
            (Phase::AwaitPairing(session), Event::PairingFinished(paired)) => {
                if paired {
                    (
                        Phase::AwaitPairedRecord(session),
                        Action::ReadPairingRecord { identity: frame.device.identity().clone() },
                    )
                } else {
                    concluding(session, None)
                }
            },
            (Phase::AwaitPairedRecord(session), Event::RecordRead(on_host)) => {
                match on_host {
                    Some(payload) => {
                        let copy = payload.clone();
                        assert(copy@ =~= payload@);
                        frame.store.refresh(frame.device.identity(), Some(copy));
                        concluding(session, Some(payload))
                    },
                    None => {
                        frame.store.refresh(frame.device.identity(), None);
                        closing(session, Next::Finish(Err(PairingError::PairingRecordNotFound)))
                    },
                }
            },
            (Phase::Closing(_, next), Event::SessionClosed) => match next {
                Next::Finish(outcome) => done(outcome),
                Next::Export(record) => exporting(record),
            },
            (Phase::AwaitOpen(session), _) => closing(
                session,
                Next::Finish(Err(PairingError::ProtocolError)),
            ),
            (Phase::AwaitValue(session), _) => closing(
                session,
                Next::Finish(Err(PairingError::ProtocolError)),
            ),
            (Phase::AwaitPairing(session), _) => closing(
                session,
                Next::Finish(Err(PairingError::ProtocolError)),
            ),
            (Phase::AwaitPairedRecord(session), _) => closing(
                session,
                Next::Finish(Err(PairingError::ProtocolError)),
            ),
            _ => done(Err(PairingError::ProtocolError)),
        };
        assert(frame.at(phase@) == self@.step(event@).0);
        (SessionOrchestrator { frame, phase }, action)
    }

    /// Tells whether the operation has ended.
    pub fn is_done(&self) -> (done: bool)
        ensures
            done == (self@.phase is Done),
    {
        match self.phase {
            Phase::Done(_) => true,
            _ => false,
        }
    }

    /// The device the operation works on.
    pub fn device(&self) -> (device: &DeviceDescriptor)
        ensures
            device@ == self@.device,
    {
        &self.frame.device
    }

    /// The operation that is under way.
    pub fn operation(&self) -> (operation: Operation)
        ensures
            operation == self@.operation,
    {
        self.frame.operation
    }

    /// Yields how the operation ended, and the credentials as they are known
    /// now. An operation that has not ended yields a protocol error.
    pub fn finish(self) -> (result: (Result<Completion, PairingError>, PairingRecordStore))
        ensures
            result_view(result.0) == self@.outcome(),
            result.1@ == self@.store,
            self@.consistent(),
    {
        proof {
            use_type_invariant(&self);
        }
        match self.phase {
            Phase::Done(outcome) => (outcome, self.frame.store),
            _ => (Err(PairingError::ProtocolError), self.frame.store),
        }
    }
}

/// Every step keeps an operation consistent. In particular an operation
/// ends only in an outcome that belongs to it.
pub proof fn operations_stay_consistent(state: OrchestratorView, event: EventView)
    requires
        state.consistent(),
    ensures
        state.step(event).0.consistent(),
{
}

/// Every operation starts out consistent, on whatever device and with
/// whatever credentials.
pub proof fn operations_start_consistent(operation: Operation, device: DeviceView, store: StoreView)
    ensures
        OrchestratorView::start(operation, device, store).0.consistent(),
{
}

/// No step changes the operation or the device. The store changes only
/// where the host's credential is read or a pairing has made a new one, and
/// then only for the device of the operation: an export and a liveness check
/// leave every credential as it is.
pub proof fn steps_keep_the_credentials(state: OrchestratorView, event: EventView, other: Seq<char>)
    requires
        state.consistent(),
        other != state.device.identity,
    ensures
        state.step(event).0.operation == state.operation,
        state.step(event).0.device == state.device,
        read_record(state.step(event).0.store, other) == read_record(state.store, other),
        !(state.phase is AwaitRecord) && !(state.phase is AwaitPairedRecord) ==> state.step(
            event,
        ).0.store == state.store,
{
}

/// A new pairing on a device that was found over the network is in no state
/// but the one in which it has ended: there is no state in which it holds a
/// session or waits for an answer of the device.
pub proof fn network_device_is_never_paired(state: OrchestratorView, event: EventView)
    requires
        state.consistent(),
        state.operation == Operation::RegeneratePairing,
        state.device.transport.is_network(),
    ensures
        state.phase is Done,
        state.session() is None,
        state.step(event) == (state, ActionView::Finish),
{
}

/// A pairing request goes out only to a device on the wire, over a session
/// that has just become ready.
pub proof fn pairing_goes_over_the_wire(state: OrchestratorView, event: EventView)
    requires
        state.consistent(),
        state.step(event).1 == ActionView::Send(crate::session::RequestView::Pair),
    ensures
        !state.device.transport.is_network(),
        state.operation == Operation::RegeneratePairing,
        state.phase is AwaitOpen,
        event == EventView::SessionOpened(true),
{
}

/// Nothing is tried twice. A session is opened by the start of an operation
/// alone, a request is sent only in answer to the handshake of that session,
/// and every step brings the end nearer: no operation takes more than six
/// steps.
pub proof fn nothing_is_retried(state: OrchestratorView, event: EventView)
    requires
        state.consistent(),
    ensures
        !(state.step(event).1 is OpenSession),
        !(state.step(event).0.phase is AwaitOpen),
        state.step(event).1 is Send ==> state.phase is AwaitOpen,
        state.steps_left() <= 6,
        !(state.phase is Done) ==> state.step(event).0.steps_left() < state.steps_left(),
        state.steps_left() == 0 <==> state.phase is Done,
{
}

/// A device that refuses the write of the network-sync setting without a
/// reason has no passcode set: the operation closes its session and ends in
/// the failure that tells the operator so, and the write is not sent again.
pub proof fn missing_passcode_is_reported(state: OrchestratorView)
    requires
        state.consistent(),
        state.phase is AwaitValue,
    ensures
        ({
            let refused = state.step(EventView::ValueWritten(WriteStatus::UnknownError));
            let ended = refused.0.step(EventView::SessionClosed);
            let failure = Err::<CompletionView, ErrorView>(
                ErrorView::PreconditionUnmet(passcode_hint()),
            );
            &&& refused.1 == ActionView::CloseSession
            &&& refused.0.phase == PhaseView::Closing(
                state.phase->AwaitValue_0.close(),
                NextView::Finish(failure),
            )
            &&& ended == state.finish(failure)
        }),
{
}

/// The test opens nothing but one liveness session, and that only once an
/// address was given that is one: text that is no address ends the test
/// before anything reaches the device. What the liveness session finds is
/// the outcome, and a device that does not answer is an outcome, not a
/// failure.
pub proof fn test_probes_only_a_valid_address(state: OrchestratorView, event: EventView)
    requires
        state.consistent(),
        state.operation == Operation::TestWifiSync,
    ensures
        state.phase is AwaitAddress ==> state.step(EventView::AddressEntered(None)) == state.finish(
            Err(ErrorView::InvalidAddress),
        ),
        state.step(event).1.reaches_device() ==> {
            &&& state.phase is AwaitAddress
            &&& event matches EventView::AddressEntered(Some(address))
            &&& state.step(event).1 == ActionView::Probe(
                crate::heartbeat::probe_of(state.device, address),
            )
        },
        state.phase is AwaitProbe ==> forall|found: OutcomeView|
            #[trigger] state.step(EventView::Probed(found)) == state.finish(
                Ok(CompletionView::WifiSyncTested(found)),
            ),
{
}

/// The file that an export has the driver write holds the payload of the
/// credential that the store holds for the device, byte for byte, and is
/// named after the device; it goes to the directory that the caller chose.
pub proof fn export_writes_the_stored_payload(state: OrchestratorView, event: EventView)
    requires
        state.consistent(),
        state.step(event).1 is WriteFile,
    ensures
        ({
            let file = state.step(event).1->WriteFile_0;
            &&& state.phase is AwaitDestination
            &&& event == EventView::DestinationChosen(Some(file.directory))
            &&& file.file_name == crate::store::export_file_name(state.device.identity)
            &&& state.store.dom().contains(state.device.identity)
            &&& file.contents == state.store[state.device.identity]
            &&& state.step(event).0.store == state.store
        }),
{
}

/// Where the caller declines to choose a destination, the export ends in
/// the failure that says so and the driver is told to write nothing.
pub proof fn declined_destination_writes_nothing(state: OrchestratorView)
    requires
        state.phase is AwaitDestination,
    ensures
        state.step(EventView::DestinationChosen(None)) == state.finish(
            Err(ErrorView::DestinationNotSelected),
        ),
{
}

/// A write that failed ends the export in the failure that says so; a write
/// that went through ends it well, and the outcome names the device and the
/// file.
pub proof fn export_ends_with_the_write(state: OrchestratorView, written: bool)
    requires
        state.phase is AwaitWrite,
    ensures
        state.step(EventView::FileWritten(written)) == state.finish(
            if written {
                Ok(
                    CompletionView::Exported {
                        identity: state.device.identity,
                        directory: state.phase->AwaitWrite_0.directory,
                        file_name: state.phase->AwaitWrite_0.file_name,
                    },
                )
            } else {
                Err(ErrorView::DestinationUnwritable)
            },
        ),
{
}

/// In a new pairing the export follows the pairing and never goes before
/// it. The host is asked for the new credential only once the pairing went
/// through; the caller is asked for a destination only once that credential
/// was read and the session that paired is closed; what is exported is that
/// credential, which by then has replaced the old one in the store. A
/// pairing that failed, or one that left no credential on the host, ends the
/// operation without any export.
pub proof fn export_follows_pairing(state: OrchestratorView, event: EventView)
    requires
        state.consistent(),
        state.operation == Operation::RegeneratePairing,
    ensures
        state.step(event).1 is ChooseDestination ==> state.phase is Closing && event
            is SessionClosed,
        state.step(event).0.phase matches PhaseView::Closing(_, NextView::Export(record)) ==> {
            &&& state.phase is AwaitPairedRecord
            &&& event == EventView::RecordRead(Some(record.payload))
            &&& record.owner_identity == state.device.identity
            &&& state.step(event).0.store == state.store.insert(
                state.device.identity,
                record.payload,
            )
        },
        state.step(event).0.phase is AwaitPairedRecord ==> state.phase is AwaitPairing && event
            == EventView::PairingFinished(true),
        state.phase is AwaitPairing ==> state.step(EventView::PairingFinished(false)).0.phase
            == PhaseView::Closing(
            state.phase->AwaitPairing_0.with_state(
                crate::session::StateView::Failed(ErrorView::ProtocolError),
            ),
            NextView::Finish(Err(ErrorView::ProtocolError)),
        ),
        state.phase is AwaitPairedRecord ==> state.step(EventView::RecordRead(None)).0.phase
            == PhaseView::Closing(
            state.phase->AwaitPairedRecord_0.close(),
            NextView::Finish(Err(ErrorView::PairingRecordNotFound)),
        ),
{
}

/// A session is closed on every path. A session that is live is never let
/// go of: the step that follows keeps it, unless that step is the answer to
/// a handshake that failed, after which nothing is left to close; and where
/// the session that is kept has come to its end, the driver is told to close
/// it. An operation ends only when it holds no session or one that is closed
/// or has failed.
pub proof fn sessions_are_closed_on_every_path(state: OrchestratorView, event: EventView)
    requires
        state.consistent(),
        state.session() is Some,
    ensures
        ({
            let after = state.step(event);
            let held = state.session()->0;
            &&& !held.state.is_final() ==> {
                ||| {
                    &&& after.0.session() is Some
                    &&& after.0.session()->0.device == held.device
                    &&& after.0.session()->0.state.is_final() ==> after.1 is CloseSession
                }
                ||| {
                    &&& state.phase is AwaitOpen
                    &&& event == EventView::SessionOpened(false)
                    &&& after.0.phase == PhaseView::Done(Err(ErrorView::SessionOpenFailed))
                }
            }
            &&& after.0.phase is Done ==> state.phase is Closing || (state.phase is AwaitOpen
                && event == EventView::SessionOpened(false))
        }),
{
}

/// Whatever comes in, and in whatever order, an operation stays consistent,
/// and the driver is told one thing to do for each event.
pub proof fn every_run_is_consistent(state: OrchestratorView, events: Seq<EventView>)
    requires
        state.consistent(),
    ensures
        state.run(events).consistent(),
        state.actions(events).len() == events.len(),
        state.run(events).operation == state.operation,
        state.run(events).device == state.device,
    decreases events.len(),
{
    if events.len() > 0 {
        operations_stay_consistent(state, events[0]);
        every_run_is_consistent(state.step(events[0]).0, events.drop_first());
    }
}

/// Once an operation has ended, nothing that comes in changes its outcome
/// and the driver is never told to do anything again.
pub proof fn ended_operations_stay_ended_for_good(state: OrchestratorView, events: Seq<EventView>)
    requires
        state.phase is Done,
    ensures
        state.run(events) == state,
        forall|i: int| 0 <= i < events.len() ==> state.actions(events)[i] == ActionView::Finish,
        state.actions(events).len() == events.len(),
    decreases events.len(),
{
    if events.len() > 0 {
        ended_operations_stay_ended_for_good(state, events.drop_first());
    }
}

/// A new pairing asked for on a device that was found over the network
/// fails as the wrong transport, and nothing ever reaches the device: not at
/// the start and not after, whatever comes in.
pub proof fn pairing_never_reaches_a_network_device(
    device: DeviceView,
    store: StoreView,
    events: Seq<EventView>,
)
    requires
        device.transport.is_network(),
    ensures
        ({
            let (started, first) = OrchestratorView::start(
                Operation::RegeneratePairing,
                device,
                store,
            );
            &&& first == ActionView::Finish
            &&& started.run(events).outcome() == Err::<CompletionView, ErrorView>(
                ErrorView::WrongTransportForPairing,
            )
            &&& forall|i: int|
                0 <= i < events.len() ==> started.actions(events)[i] == ActionView::Finish
        }),
{
    let started = OrchestratorView::start(Operation::RegeneratePairing, device, store).0;
    ended_operations_stay_ended_for_good(started, events);
}

/// The test of a device that was found over the network finds it reachable,
/// and no session of any kind is opened for it: not at the start and not
/// after, whatever comes in.
pub proof fn test_never_reaches_a_network_device(
    device: DeviceView,
    store: StoreView,
    events: Seq<EventView>,
)
    requires
        device.transport.is_network(),
    ensures
        ({
            let (started, first) = OrchestratorView::start(Operation::TestWifiSync, device, store);
            &&& first == ActionView::Finish
            &&& started.run(events).outcome() == Ok::<CompletionView, ErrorView>(
                CompletionView::WifiSyncTested(OutcomeView::Reachable),
            )
            &&& forall|i: int|
                0 <= i < events.len() ==> started.actions(events)[i] == ActionView::Finish
        }),
{
    let started = OrchestratorView::start(Operation::TestWifiSync, device, store).0;
    ended_operations_stay_ended_for_good(started, events);
}

/// In the whole course of an operation no session is opened but the one
/// that its start may open, and at most one request is sent: whatever the
/// device answers, a write or a pairing is never sent again.
pub proof fn no_request_is_sent_twice(state: OrchestratorView, events: Seq<EventView>)
    requires
        state.consistent(),
    ensures
        forall|i: int| 0 <= i < events.len() ==> !(state.actions(events)[i] is OpenSession),
        forall|i: int|
            0 <= i < events.len() && (i > 0 || !(state.phase is AwaitOpen)) ==> !(state.actions(
                events,
            )[i] is Send),
        forall|i: int, j: int|
            0 <= i < j < events.len() ==> !(state.actions(events)[i] is Send && state.actions(
                events,
            )[j] is Send),
    decreases events.len(),
{
    if events.len() > 0 {
        let next = state.step(events[0]).0;
        let rest = events.drop_first();
        operations_stay_consistent(state, events[0]);
        nothing_is_retried(state, events[0]);
        no_request_is_sent_twice(next, rest);
        every_run_is_consistent(next, rest);
        assert forall|i: int| 0 < i < events.len() implies state.actions(events)[i]
            == next.actions(rest)[i - 1] by {}
    }
}

/// Every operation ends: once as many events have come in as there were
/// steps left, and six are always enough, the operation has ended.
pub proof fn every_operation_ends(state: OrchestratorView, events: Seq<EventView>)
    requires
        state.consistent(),
        events.len() >= state.steps_left(),
    ensures
        state.run(events).phase is Done,
        state.steps_left() <= 6,
    decreases events.len(),
{
    if events.len() > 0 {
        operations_stay_consistent(state, events[0]);
        nothing_is_retried(state, events[0]);
        if state.phase is Done {
            ended_operations_stay_ended_for_good(state, events);
        } else {
            every_operation_ends(state.step(events[0]).0, events.drop_first());
        }
    }
}

/// The course of a new pairing where all goes well, for every device on the
/// wire, whatever the store held and whatever credential the pairing makes:
/// the one request is the pairing, the new credential is read from the host
/// while the session is open, the session is closed, and only then the
/// caller is asked where to export to. The file holds the new credential and
/// is named after the device, and the store holds it in place of the old.
pub proof fn course_of_a_new_pairing(
    device: DeviceView,
    store: StoreView,
    payload: Seq<u8>,
    directory: Seq<char>,
)
    requires
        !device.transport.is_network(),
    ensures
        ({
            let (started, first) = OrchestratorView::start(
                Operation::RegeneratePairing,
                device,
                store,
            );
            let events = seq![
                EventView::SessionOpened(true),
                EventView::PairingFinished(true),
                EventView::RecordRead(Some(payload)),
                EventView::SessionClosed,
                EventView::DestinationChosen(Some(directory)),
                EventView::FileWritten(true),
            ];
            let file_name = crate::store::export_file_name(device.identity);
            &&& first == ActionView::OpenSession {
                identity: device.identity,
                transport: device.transport,
                purpose_tag: Operation::RegeneratePairing.purpose(),
            }
            &&& started.actions(events) == seq![
                ActionView::Send(crate::session::RequestView::Pair),
                ActionView::ReadPairingRecord { identity: device.identity },
                ActionView::CloseSession,
                ActionView::ChooseDestination,
                ActionView::WriteFile(FileView { directory, file_name, contents: payload }),
                ActionView::Finish,
            ]
            &&& started.run(events).outcome() == Ok::<CompletionView, ErrorView>(
                CompletionView::Exported { identity: device.identity, directory, file_name },
            )
            &&& started.run(events).store == store.insert(device.identity, payload)
        }),
{
    reveal_with_fuel(OrchestratorView::run, 7);
    reveal_with_fuel(OrchestratorView::actions, 7);
    let started = OrchestratorView::start(Operation::RegeneratePairing, device, store).0;
    let events = seq![
        EventView::SessionOpened(true),
        EventView::PairingFinished(true),
        EventView::RecordRead(Some(payload)),
        EventView::SessionClosed,
        EventView::DestinationChosen(Some(directory)),
        EventView::FileWritten(true),
    ];
    let file_name = crate::store::export_file_name(device.identity);
    assert(started.actions(events) =~= seq![
        ActionView::Send(crate::session::RequestView::Pair),
        ActionView::ReadPairingRecord { identity: device.identity },
        ActionView::CloseSession,
        ActionView::ChooseDestination,
        ActionView::WriteFile(FileView { directory, file_name, contents: payload }),
        ActionView::Finish,
    ]);
}

/// The course of an export where all goes well, for every device and every
/// credential that the host holds for it: the credential is read, the caller
/// is asked where to, and one file is written that holds the credential byte
/// for byte and is named after the device.
pub proof fn course_of_an_export(
    device: DeviceView,
    store: StoreView,
    payload: Seq<u8>,
    directory: Seq<char>,
)
    ensures
        ({
            let (started, first) = OrchestratorView::start(
                Operation::ExportPairingFile,
                device,
                store,
            );
            let events = seq![
                EventView::RecordRead(Some(payload)),
                EventView::DestinationChosen(Some(directory)),
                EventView::FileWritten(true),
            ];
            let file_name = crate::store::export_file_name(device.identity);
            &&& first == ActionView::ReadPairingRecord { identity: device.identity }
            &&& started.actions(events) == seq![
                ActionView::ChooseDestination,
                ActionView::WriteFile(FileView { directory, file_name, contents: payload }),
                ActionView::Finish,
            ]
            &&& started.run(events).outcome() == Ok::<CompletionView, ErrorView>(
                CompletionView::Exported { identity: device.identity, directory, file_name },
            )
        }),
{
    reveal_with_fuel(OrchestratorView::run, 4);
    reveal_with_fuel(OrchestratorView::actions, 4);
    let started = OrchestratorView::start(Operation::ExportPairingFile, device, store).0;
    let events = seq![
        EventView::RecordRead(Some(payload)),
        EventView::DestinationChosen(Some(directory)),
        EventView::FileWritten(true),
    ];
    let file_name = crate::store::export_file_name(device.identity);
    assert(started.actions(events) =~= seq![
        ActionView::ChooseDestination,
        ActionView::WriteFile(FileView { directory, file_name, contents: payload }),
        ActionView::Finish,
    ]);
}

/// The course of switching on syncing over the network, for every device
/// and whatever the device says of the write: one session, one write of the
/// one setting, and the session is closed before the operation ends, in the
/// outcome that the answer stands for.
pub proof fn course_of_enabling_wifi_sync(device: DeviceView, store: StoreView, status: WriteStatus)
    ensures
        ({
            let (started, first) = OrchestratorView::start(
                Operation::EnableWifiSync,
                device,
                store,
            );
            let events = seq![
                EventView::SessionOpened(true),
                EventView::ValueWritten(status),
                EventView::SessionClosed,
            ];
            &&& first == ActionView::OpenSession {
                identity: device.identity,
                transport: device.transport,
                purpose_tag: Operation::EnableWifiSync.purpose(),
            }
            &&& started.actions(events) == seq![
                ActionView::Send(
                    crate::session::RequestView::SetValue {
                        domain: wifi_sync_domain(),
                        key: wifi_sync_key(),
                        value: SettingView::Boolean(true),
                    },
                ),
                ActionView::CloseSession,
                ActionView::Finish,
            ]
            &&& started.run(events).outcome() == match status {
                WriteStatus::Success => Ok::<CompletionView, ErrorView>(
                    CompletionView::WifiSyncEnabled,
                ),
                WriteStatus::UnknownError => Err(ErrorView::PreconditionUnmet(passcode_hint())),
                WriteStatus::OtherError => Err(ErrorView::ProtocolError),
            }
            &&& started.run(events).store == store
        }),
{
    reveal_with_fuel(OrchestratorView::run, 4);
    reveal_with_fuel(OrchestratorView::actions, 4);
    let started = OrchestratorView::start(Operation::EnableWifiSync, device, store).0;
    let events = seq![
        EventView::SessionOpened(true),
        EventView::ValueWritten(status),
        EventView::SessionClosed,
    ];
    assert(started.actions(events) =~= seq![
        ActionView::Send(
            crate::session::RequestView::SetValue {
                domain: wifi_sync_domain(),
                key: wifi_sync_key(),
                value: SettingView::Boolean(true),
            },
        ),
        ActionView::CloseSession,
        ActionView::Finish,
    ]);
}

/// The course of a test of a device on the wire, for every address and
/// whatever the liveness session finds: the address is asked for, one
/// liveness session is opened against it, and what it found is the outcome.
/// No credential is touched.
pub proof fn course_of_a_test(
    device: DeviceView,
    store: StoreView,
    address: NetworkAddress,
    found: OutcomeView,
)
    requires
        !device.transport.is_network(),
    ensures
        ({
            let (started, first) = OrchestratorView::start(Operation::TestWifiSync, device, store);
            let events = seq![EventView::AddressEntered(Some(address)), EventView::Probed(found)];
            &&& first == ActionView::AskAddress
            &&& started.actions(events) == seq![
                ActionView::Probe(crate::heartbeat::probe_of(device, address)),
                ActionView::Finish,
            ]
            &&& started.run(events).outcome() == Ok::<CompletionView, ErrorView>(
                CompletionView::WifiSyncTested(found),
            )
            &&& started.run(events).store == store
        }),
{
    reveal_with_fuel(OrchestratorView::run, 3);
    reveal_with_fuel(OrchestratorView::actions, 3);
    let started = OrchestratorView::start(Operation::TestWifiSync, device, store).0;
    let events = seq![EventView::AddressEntered(Some(address)), EventView::Probed(found)];
    assert(started.actions(events) =~= seq![
        ActionView::Probe(crate::heartbeat::probe_of(device, address)),
        ActionView::Finish,
    ]);
}

} // verus!
