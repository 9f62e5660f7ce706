//! One protocol session against one device.
//!
//! A session never talks to the device itself. Each operation comes in two
//! halves: the first decides whether a request may go out at all and, if so,
//! which; the second takes what the device answered. The driver sends
//! exactly the requests it is handed, so a refusal in the first half means
//! that no byte reaches the device.

use crate::device::{DeviceDescriptor, DeviceView};
use crate::error::{ErrorView, PairingError};
use crate::store::{PairingRecord, RecordView};
use crate::views::{option_view, result_view};
use vstd::prelude::*;

verus! {

/// Where a session stands. `Closed` and `Failed` are final.
#[derive(Debug, PartialEq, Eq)]
pub enum SessionState {
    Opening,
    Ready,
    Closed,
    Failed(PairingError),
}

/// The mathematical value of a [`SessionState`].
pub enum StateView {
    Opening,
    Ready,
    Closed,
    Failed(ErrorView),
}

impl View for SessionState {
    type V = StateView;

    open spec fn view(&self) -> StateView {
        match self {
            SessionState::Opening => StateView::Opening,
            SessionState::Ready => StateView::Ready,
            SessionState::Closed => StateView::Closed,
            SessionState::Failed(reason) => StateView::Failed(reason@),
        }
    }
}

impl StateView {
    /// No transition leaves a final state.
    pub open spec fn is_final(self) -> bool {
        self is Closed || self is Failed
    }
}

/// A value written to a device-side setting.
#[derive(Debug, PartialEq, Eq)]
pub enum SettingValue {
    Boolean(bool),
    Integer(u64),
    Text(String),
}

/// The mathematical value of a [`SettingValue`].
pub enum SettingView {
    Boolean(bool),
    Integer(u64),
    Text(Seq<char>),
}

impl View for SettingValue {
    type V = SettingView;

    open spec fn view(&self) -> SettingView {
        match self {
            SettingValue::Boolean(b) => SettingView::Boolean(*b),
            SettingValue::Integer(n) => SettingView::Integer(*n),
            SettingValue::Text(t) => SettingView::Text(t@),
        }
    }
}

impl Clone for SettingValue {
    fn clone(&self) -> (copy: Self)
        ensures
            copy@ == self@,
    {
        match self {
            SettingValue::Boolean(b) => SettingValue::Boolean(*b),
            SettingValue::Integer(n) => SettingValue::Integer(*n),
            SettingValue::Text(t) => SettingValue::Text(t.clone()),
        }
    }
}

/// What the driver is to send to the device on behalf of a ready session.
#[derive(Debug, PartialEq, Eq)]
pub enum Request {
    GetName,
    SetValue { domain: String, key: String, value: SettingValue },
    Pair,
}

/// The mathematical value of a [`Request`].
pub enum RequestView {
    GetName,
    SetValue { domain: Seq<char>, key: Seq<char>, value: SettingView },
    Pair,
}

impl View for Request {
    type V = RequestView;

    open spec fn view(&self) -> RequestView {
        match self {
            Request::GetName => RequestView::GetName,
            Request::SetValue { domain, key, value } => RequestView::SetValue {
                domain: domain@,
                key: key@,
                value: value@,
            },
            Request::Pair => RequestView::Pair,
        }
    }
}

impl Clone for Request {
    fn clone(&self) -> (copy: Self)
        ensures
            copy@ == self@,
    {
        match self {
            Request::GetName => Request::GetName,
            Request::SetValue { domain, key, value } => Request::SetValue {
                domain: domain.clone(),
                key: key.clone(),
                value: value.clone(),
            },
            Request::Pair => Request::Pair,
        }
    }
}

/// What a device answered to a write.
#[derive(Debug, PartialEq, Eq)]
pub enum WriteReply {
    /// The value was written.
    Accepted,
    /// The device refused, and named what the operator has to do first.
    Rejected(String),
    /// The exchange broke down, or timed out.
    Failed,
}

/// The mathematical value of a [`WriteReply`].
pub enum WriteReplyView {
    Accepted,
    Rejected(Seq<char>),
    Failed,
}

impl View for WriteReply {
    type V = WriteReplyView;

    open spec fn view(&self) -> WriteReplyView {
        match self {
            WriteReply::Accepted => WriteReplyView::Accepted,
            WriteReply::Rejected(description) => WriteReplyView::Rejected(description@),
            WriteReply::Failed => WriteReplyView::Failed,
        }
    }
}

/// The mathematical value of a [`LockdownSession`].
pub struct SessionView {
    pub device: DeviceView,
    pub purpose_tag: Seq<char>,
    pub state: StateView,
}

impl SessionView {
    /// A session as it starts out, before the handshake.
    pub open spec fn opening(device: DeviceView, purpose_tag: Seq<char>) -> SessionView {
        SessionView { device, purpose_tag, state: StateView::Opening }
    }

    pub open spec fn with_state(self, state: StateView) -> SessionView {
        SessionView { state, ..self }
    }

    /// The handshake ended: the session is ready, or it has failed for good.
    pub open spec fn establish(self, reachable: bool) -> (SessionView, Result<(), ErrorView>) {
        if !(self.state is Opening) {
            (self, Err(ErrorView::ProtocolError))
        } else if reachable {
            (self.with_state(StateView::Ready), Ok(()))
        } else {
            (
                self.with_state(StateView::Failed(ErrorView::SessionOpenFailed)),
                Err(ErrorView::SessionOpenFailed),
            )
        }
    }

    /// Whether the name may be asked for.
    pub open spec fn get_name(self) -> Result<RequestView, ErrorView> {
        if self.state is Ready {
            Ok(RequestView::GetName)
        } else {
            Err(ErrorView::ProtocolError)
        }
    }

    /// The device answered the name query, or declined to.
    pub open spec fn name_received(self, reply: Option<Seq<char>>) -> Result<
        Seq<char>,
        ErrorView,
    > {
        if !(self.state is Ready) {
            Err(ErrorView::ProtocolError)
        } else {
            match reply {
                Some(name) => Ok(name),
                None => Err(ErrorView::AttributeUnavailable),
            }
        }
    }

    /// Whether a value may be written, and the request that writes it.
    pub open spec fn set_value(self, domain: Seq<char>, key: Seq<char>, value: SettingView) -> Result<
        RequestView,
        ErrorView,
    > {
        if self.state is Ready {
            Ok(RequestView::SetValue { domain, key, value })
        } else {
            Err(ErrorView::ProtocolError)
        }
    }

    /// The device answered a write. A refusal with a remedy leaves the
    /// session ready; a breakdown ends it.
    pub open spec fn value_written(self, reply: WriteReplyView) -> (
        SessionView,
        Result<(), ErrorView>,
    ) {
        if !(self.state is Ready) {
            (self, Err(ErrorView::ProtocolError))
        } else {
            match reply {
                WriteReplyView::Accepted => (self, Ok(())),
                WriteReplyView::Rejected(description) => (
                    self,
                    Err(ErrorView::PreconditionUnmet(description)),
                ),
                WriteReplyView::Failed => (
                    self.with_state(StateView::Failed(ErrorView::ProtocolError)),
                    Err(ErrorView::ProtocolError),
                ),
            }
        }
    }

    /// Whether pairing may be asked for. A device that was found over the
    /// network is refused first of all, in whatever state the session is.
    pub open spec fn request_pairing(self) -> Result<RequestView, ErrorView> {
        if self.device.transport.is_network() {
            Err(ErrorView::WrongTransportForPairing)
        } else if self.state is Ready {
            Ok(RequestView::Pair)
        } else {
            Err(ErrorView::ProtocolError)
        }
    }

    /// The pairing handshake ended with the payload of a new credential, or
    /// without one. The credential belongs to the session's device.
    pub open spec fn pairing_completed(self, reply: Option<Seq<u8>>) -> (
        SessionView,
        Result<RecordView, ErrorView>,
    ) {
        match self.request_pairing() {
            Err(refusal) => (self, Err(refusal)),
            Ok(_) => match reply {
                Some(payload) => (
                    self,
                    Ok(RecordView { owner_identity: self.device.identity, payload }),
                ),
                None => (
                    self.with_state(StateView::Failed(ErrorView::ProtocolError)),
                    Err(ErrorView::ProtocolError),
                ),
            },
        }
    }

    /// The session after it was closed.
    pub open spec fn close(self) -> SessionView {
        if self.state.is_final() {
            self
        } else {
            self.with_state(StateView::Closed)
        }
    }
}

/// A session opened for one purpose against one device. It is made for one
/// operation and not used again after it.
#[derive(Debug)]
pub struct LockdownSession {
    device: DeviceDescriptor,
    purpose_tag: String,
    state: SessionState,
}

impl View for LockdownSession {
    type V = SessionView;

    closed spec fn view(&self) -> SessionView {
        SessionView { device: self.device@, purpose_tag: self.purpose_tag@, state: self.state@ }
    }
}

impl LockdownSession {
    /// Starts a session against `device`. The handshake is still to come.
    pub fn open(device: DeviceDescriptor, purpose_tag: String) -> (session: Self)
        ensures
            session@ == SessionView::opening(device@, purpose_tag@),
    {
        LockdownSession { device, purpose_tag, state: SessionState::Opening }
    }

    pub fn device(&self) -> (device: &DeviceDescriptor)
        ensures
            device@ == self@.device,
    {
        &self.device
    }

    pub fn purpose_tag(&self) -> (purpose_tag: &String)
        ensures
            purpose_tag@ == self@.purpose_tag,
    {
        &self.purpose_tag
    }

    pub fn state(&self) -> (state: &SessionState)
        ensures
            state@ == self@.state,
    {
        &self.state
    }

    pub fn is_ready(&self) -> (ready: bool)
        ensures
            ready == (self@.state is Ready),
    {
        match self.state {
            SessionState::Ready => true,
            _ => false,
        }
    }

    /// Tells whether the session has reached a final state.
    pub fn is_finished(&self) -> (finished: bool)
        ensures
            finished == self@.state.is_final(),
    {
        match self.state {
            SessionState::Closed => true,
            SessionState::Failed(_) => true,
            _ => false,
        }
    }

    /// Takes in how the handshake ended.
    pub fn establish(&mut self, reachable: bool) -> (result: Result<(), PairingError>)
        ensures
            (final(self)@, result_view(result)) == old(self)@.establish(reachable),
    {
        match self.state {
            SessionState::Opening => {
                if reachable {
                    self.state = SessionState::Ready;
                    Ok(())
                } else {
                    self.state = SessionState::Failed(PairingError::SessionOpenFailed);
                    Err(PairingError::SessionOpenFailed)
                }
            },
            _ => Err(PairingError::ProtocolError),
        }
    }

    /// Asks for the device's name.
    pub fn get_name(&self) -> (result: Result<Request, PairingError>)
        ensures
            result_view(result) == self@.get_name(),
    {
        if self.is_ready() {
            Ok(Request::GetName)
        } else {
            Err(PairingError::ProtocolError)
        }
    }

    /// Takes in the answer to a name query: the name, or `None` where the
    /// device declined.
    pub fn name_received(&self, reply: Option<String>) -> (result: Result<String, PairingError>)
        ensures
            result_view(result) == self@.name_received(option_view(reply)),
    {
        if !self.is_ready() {
            return Err(PairingError::ProtocolError);
        }
        match reply {
            Some(name) => Ok(name),
            None => Err(PairingError::AttributeUnavailable),
        }
    }

    /// Asks to write `value` under `key` in `domain`.
    pub fn set_value(&self, domain: String, key: String, value: SettingValue) -> (result: Result<
        Request,
        PairingError,
    >)
        ensures
            result_view(result) == self@.set_value(domain@, key@, value@),
    {
        if self.is_ready() {
            Ok(Request::SetValue { domain, key, value })
        } else {
            Err(PairingError::ProtocolError)
        }
    }

    /// Takes in the answer to a write.
    pub fn value_written(&mut self, reply: WriteReply) -> (result: Result<(), PairingError>)
        ensures
            (final(self)@, result_view(result)) == old(self)@.value_written(reply@),
    {
        if !self.is_ready() {
            return Err(PairingError::ProtocolError);
        }
        match reply {
            WriteReply::Accepted => Ok(()),
            WriteReply::Rejected(description) => Err(PairingError::PreconditionUnmet(description)),
            WriteReply::Failed => {
                self.state = SessionState::Failed(PairingError::ProtocolError);
                Err(PairingError::ProtocolError)
            },
        }
    }

    /// Asks to pair with the device.
    pub fn request_pairing(&self) -> (result: Result<Request, PairingError>)
        ensures
            result_view(result) == self@.request_pairing(),
    {
        if self.device.is_network() {
            Err(PairingError::WrongTransportForPairing)
        } else if self.is_ready() {
            Ok(Request::Pair)
        } else {
            Err(PairingError::ProtocolError)
        }
    }

    /// Takes in how the pairing handshake ended: the payload of the new
    /// credential, or `None` where it failed.
    pub fn pairing_completed(&mut self, reply: Option<Vec<u8>>) -> (result: Result<
        PairingRecord,
        PairingError,
    >)
        ensures
            (final(self)@, result_view(result)) == old(self)@.pairing_completed(
                option_view(reply),
            ),
    {
        match self.request_pairing() {
            Err(refusal) => Err(refusal),
            Ok(_) => match reply {
                Some(payload) => Ok(PairingRecord::new(self.device.identity().clone(), payload)),
                None => {
                    self.state = SessionState::Failed(PairingError::ProtocolError);
                    Err(PairingError::ProtocolError)
                },
            },
        }
    }

    /// Closes the session. Closing a session that is closed or has failed
    /// changes nothing.
    pub fn close(&mut self)
        ensures
            final(self)@ == old(self)@.close(),
    {
        match self.state {
            SessionState::Opening => {
                self.state = SessionState::Closed;
            },
            SessionState::Ready => {
                self.state = SessionState::Closed;
            },
            _ => {},
        }
    }
}

/// The steps a session's state may take: from opening to ready, from either
/// of them to closed or failed, and otherwise none.
pub open spec fn may_follow(before: StateView, after: StateView) -> bool {
    ||| after == before
    ||| before is Opening && after is Ready
    ||| (before is Opening || before is Ready) && after.is_final()
}

/// Closing is idempotent, and a closed session is in a final state.
pub proof fn close_is_idempotent(session: SessionView)
    ensures
        session.close().close() == session.close(),
        session.close().state.is_final(),
        session.state is Opening || session.state is Ready ==> session.close().state is Closed,
{
}

/// Pairing asked of a device that was found over the network is refused as
/// the wrong transport, in every state of the session and whatever a device
/// might have answered; the session is left as it was and no request exists
/// to send.
pub proof fn pairing_over_network_is_refused(session: SessionView, reply: Option<Seq<u8>>)
    requires
        session.device.transport.is_network(),
    ensures
        session.request_pairing() == Err::<RequestView, ErrorView>(
            ErrorView::WrongTransportForPairing,
        ),
        session.pairing_completed(reply) == (
            session,
            Err::<RecordView, ErrorView>(ErrorView::WrongTransportForPairing),
        ),
{
}

/// A credential that pairing yields belongs to the session's own device.
pub proof fn paired_record_belongs_to_the_device(session: SessionView, reply: Option<Seq<u8>>)
    ensures
        session.pairing_completed(reply).1 matches Ok(record) ==> {
            &&& record.owner_identity == session.device.identity
            &&& reply == Some(record.payload)
            &&& session.state is Ready
            &&& !session.device.transport.is_network()
        },
{
}

/// Every step of a session follows the lifecycle, and none changes the
/// device or the purpose the session was opened for.
pub proof fn steps_follow_the_lifecycle(
    session: SessionView,
    reachable: bool,
    written: WriteReplyView,
    paired: Option<Seq<u8>>,
)
    ensures
        ({
            let after = session.establish(reachable).0;
            may_follow(session.state, after.state) && after == session.with_state(after.state)
        }),
        ({
            let after = session.value_written(written).0;
            may_follow(session.state, after.state) && after == session.with_state(after.state)
        }),
        ({
            let after = session.pairing_completed(paired).0;
            may_follow(session.state, after.state) && after == session.with_state(after.state)
        }),
        ({
            let after = session.close();
            may_follow(session.state, after.state) && after == session.with_state(after.state)
        }),
{
}

/// A session in a final state stays as it is, sends nothing and answers
/// every call with a failure.
pub proof fn final_states_are_final(
    session: SessionView,
    reachable: bool,
    name: Option<Seq<char>>,
    domain: Seq<char>,
    key: Seq<char>,
    value: SettingView,
    written: WriteReplyView,
    paired: Option<Seq<u8>>,
)
    requires
        session.state.is_final(),
    ensures
        session.establish(reachable) == (session, Err::<(), ErrorView>(ErrorView::ProtocolError)),
        session.get_name() is Err,
        session.name_received(name) is Err,
        session.set_value(domain, key, value) is Err,
        session.value_written(written) == (session, Err::<(), ErrorView>(ErrorView::ProtocolError)),
        session.request_pairing() is Err,
        session.pairing_completed(paired).0 == session,
        session.pairing_completed(paired).1 is Err,
        session.close() == session,
{
}

} // verus!
