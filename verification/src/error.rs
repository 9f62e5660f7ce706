//! The failures an operation can end in.

use vstd::prelude::*;

verus! {

/// Why an operation was given up. No failure is retried by this crate: each
/// has a remedy outside it, or reflects a precondition that a retry cannot
/// repair.
#[derive(Debug, PartialEq, Eq)]
pub enum PairingError {
    /// The discovery service could not be reached.
    EnumerationUnavailable,
    /// The discovery service answered, and no device is attached.
    NoDevicesFound,
    /// The device could not be reached on the transport of its descriptor.
    SessionOpenFailed,
    /// The device declined to give the attribute asked for.
    AttributeUnavailable,
    /// An exchange with the device broke down, or a session was used in a
    /// state that does not allow the call.
    ProtocolError,
    /// The device refused a write and said what the operator has to do first.
    PreconditionUnmet(String),
    /// Pairing was asked for on a device that is not on its wired transport.
    WrongTransportForPairing,
    /// The host holds no credential for the device.
    PairingRecordNotFound,
    /// The caller declined to choose where an export goes.
    DestinationNotSelected,
    /// The chosen destination could not be created or written.
    DestinationUnwritable,
    /// The text given as a network address is none.
    InvalidAddress,
}

/// The mathematical value of a [`PairingError`].
pub enum ErrorView {
    EnumerationUnavailable,
    NoDevicesFound,
    SessionOpenFailed,
    AttributeUnavailable,
    ProtocolError,
    PreconditionUnmet(Seq<char>),
    WrongTransportForPairing,
    PairingRecordNotFound,
    DestinationNotSelected,
    DestinationUnwritable,
    InvalidAddress,
}

impl View for PairingError {
    type V = ErrorView;

    open spec fn view(&self) -> ErrorView {
        match self {
            PairingError::EnumerationUnavailable => ErrorView::EnumerationUnavailable,
            PairingError::NoDevicesFound => ErrorView::NoDevicesFound,
            PairingError::SessionOpenFailed => ErrorView::SessionOpenFailed,
            PairingError::AttributeUnavailable => ErrorView::AttributeUnavailable,
            PairingError::ProtocolError => ErrorView::ProtocolError,
            PairingError::PreconditionUnmet(description) => ErrorView::PreconditionUnmet(
                description@,
            ),
            PairingError::WrongTransportForPairing => ErrorView::WrongTransportForPairing,
            PairingError::PairingRecordNotFound => ErrorView::PairingRecordNotFound,
            PairingError::DestinationNotSelected => ErrorView::DestinationNotSelected,
            PairingError::DestinationUnwritable => ErrorView::DestinationUnwritable,
            PairingError::InvalidAddress => ErrorView::InvalidAddress,
        }
    }
}

impl Clone for PairingError {
    fn clone(&self) -> (copy: Self)
        ensures
            copy@ == self@,
    {
        match self {
            PairingError::EnumerationUnavailable => PairingError::EnumerationUnavailable,
            PairingError::NoDevicesFound => PairingError::NoDevicesFound,
            PairingError::SessionOpenFailed => PairingError::SessionOpenFailed,
            PairingError::AttributeUnavailable => PairingError::AttributeUnavailable,
            PairingError::ProtocolError => PairingError::ProtocolError,
            PairingError::PreconditionUnmet(description) => PairingError::PreconditionUnmet(
                description.clone(),
            ),
            PairingError::WrongTransportForPairing => PairingError::WrongTransportForPairing,
            PairingError::PairingRecordNotFound => PairingError::PairingRecordNotFound,
            PairingError::DestinationNotSelected => PairingError::DestinationNotSelected,
            PairingError::DestinationUnwritable => PairingError::DestinationUnwritable,
            PairingError::InvalidAddress => PairingError::InvalidAddress,
        }
    }
}

impl ErrorView {
    /// The reason shown to the operator. What a device said of an unmet
    /// precondition is passed on letter for letter.
    pub open spec fn reason(self) -> Seq<char> {
        match self {
            ErrorView::EnumerationUnavailable => "the device discovery service cannot be reached"@,
            ErrorView::NoDevicesFound => "no devices are connected"@,
            ErrorView::SessionOpenFailed => "the device cannot be reached on its transport"@,
            ErrorView::AttributeUnavailable => "the device declined to answer"@,
            ErrorView::ProtocolError => "the exchange with the device failed"@,
            ErrorView::PreconditionUnmet(description) => description,
            ErrorView::WrongTransportForPairing => "the device must be plugged into USB"@,
            ErrorView::PairingRecordNotFound => "no pairing record exists for the device"@,
            ErrorView::DestinationNotSelected => "no destination was selected"@,
            ErrorView::DestinationUnwritable => "the destination cannot be written"@,
            ErrorView::InvalidAddress => "the address is not a valid IP address"@,
        }
    }
}

impl PairingError {
    /// The reason to show to the operator.
    pub fn reason(&self) -> (text: String)
        ensures
            text@ == self@.reason(),
    {
        match self {
            PairingError::EnumerationUnavailable => String::from_str(
                "the device discovery service cannot be reached",
            ),
            PairingError::NoDevicesFound => String::from_str("no devices are connected"),
            PairingError::SessionOpenFailed => String::from_str(
                "the device cannot be reached on its transport",
            ),
            PairingError::AttributeUnavailable => String::from_str("the device declined to answer"),
            PairingError::ProtocolError => String::from_str("the exchange with the device failed"),
            PairingError::PreconditionUnmet(description) => description.clone(),
            PairingError::WrongTransportForPairing => String::from_str(
                "the device must be plugged into USB",
            ),
            PairingError::PairingRecordNotFound => String::from_str(
                "no pairing record exists for the device",
            ),
            PairingError::DestinationNotSelected => String::from_str("no destination was selected"),
            PairingError::DestinationUnwritable => String::from_str(
                "the destination cannot be written",
            ),
            PairingError::InvalidAddress => String::from_str(
                "the address is not a valid IP address",
            ),
        }
    }
}

} // verus!
