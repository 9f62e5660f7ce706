//! Device identities and the transport a device was discovered on.

use crate::views::option_view;
use vstd::prelude::*;

verus! {

/// An IP address held as its bits, most significant byte first.
#[derive(Clone, Copy, Debug, PartialEq, Eq, Structural)]
pub enum NetworkAddress {
    V4(u32),
    V6(u128),
}

/// How a device was discovered. This records the channel of discovery and
/// promises nothing about what the device supports.
#[derive(Clone, Copy, Debug, PartialEq, Eq, Structural)]
pub enum Transport {
    Usb,
    Network(NetworkAddress, u16),
}

impl Transport {
    pub open spec fn is_network(self) -> bool {
        self is Network
    }

    /// Tells whether the device was found over the network.
    pub fn over_network(&self) -> (b: bool)
        ensures
            b == self.is_network(),
    {
        match self {
            Transport::Usb => false,
            Transport::Network(_, _) => true,
        }
    }
}

/// The mathematical value of a [`DeviceDescriptor`].
pub struct DeviceView {
    pub identity: Seq<char>,
    pub transport: Transport,
    pub display_name: Option<Seq<char>>,
}

/// Identity and transport of one device, with its name once it is known.
///
/// The identity is fixed when the descriptor is made: no method changes it.
#[derive(Debug, PartialEq, Eq)]
pub struct DeviceDescriptor {
    identity: String,
    transport: Transport,
    display_name: Option<String>,
}

impl View for DeviceDescriptor {
    type V = DeviceView;

    closed spec fn view(&self) -> DeviceView {
        DeviceView {
            identity: self.identity@,
            transport: self.transport,
            display_name: option_view(self.display_name),
        }
    }
}

impl Clone for DeviceDescriptor {
    fn clone(&self) -> (copy: Self)
        ensures
            copy@ == self@,
    {
        let display_name = match &self.display_name {
            Some(name) => Some(name.clone()),
            None => None,
        };
        DeviceDescriptor { identity: self.identity.clone(), transport: self.transport, display_name }
    }
}

impl DeviceDescriptor {
    /// A descriptor as discovery yields it: the name is not known yet.
    pub fn new(identity: String, transport: Transport) -> (device: Self)
        ensures
            device@ == (DeviceView { identity: identity@, transport, display_name: None }),
    {
        DeviceDescriptor { identity, transport, display_name: None }
    }

    pub fn identity(&self) -> (identity: &String)
        ensures
            identity@ == self@.identity,
    {
        &self.identity
    }

    pub fn transport(&self) -> (transport: Transport)
        ensures
            transport == self@.transport,
    {
        self.transport
    }

    pub fn display_name(&self) -> (name: Option<&String>)
        ensures
            option_view(name) == self@.display_name,
    {
        self.display_name.as_ref()
    }

    /// Tells whether the device was discovered over the network.
    pub fn is_network(&self) -> (b: bool)
        ensures
            b == self@.transport.is_network(),
    {
        self.transport.over_network()
    }

    /// Tells whether this descriptor stands for the device `identity`.
    pub fn has_identity(&self, identity: &String) -> (b: bool)
        ensures
            b == (self@.identity == identity@),
    {
        self.identity == *identity
    }

    /// The line that stands for the device in a list to choose from.
    pub fn menu_line(&self) -> (line: String)
        ensures
            line@ == self@.menu_line(),
    {
        let mut line = if self.is_network() {
            String::from_str("\u{1F4F6}")
        } else {
            String::from_str("\u{1F50C}")
        };
        match &self.display_name {
            Some(name) => {
                line.append(" ");
                line.append(name.as_str());
            },
            None => {},
        }
        line.append(" - ");
        line.append(self.identity.as_str());
        line
    }

    /// Records the name the device gave. A missing name leaves the
    /// descriptor as it was; nothing else ever changes.
    pub fn set_display_name(&mut self, name: Option<String>)
        ensures
            final(self)@ == old(self)@.named(option_view(name)),
    {
        match name {
            Some(n) => {
                self.display_name = Some(n);
            },
            None => {},
        }
    }
}

impl DeviceView {
    /// The sign that shows how the device was discovered.
    pub open spec fn transport_sign(self) -> Seq<char> {
        if self.transport.is_network() {
            "\u{1F4F6}"@
        } else {
            "\u{1F50C}"@
        }
    }

    /// The line that stands for the device in a list to choose from: the
    /// sign of its transport, its name if it gave one, and its identity.
    pub open spec fn menu_line(self) -> Seq<char> {
        match self.display_name {
            Some(name) => self.transport_sign() + " "@ + name + " - "@ + self.identity,
            None => self.transport_sign() + " - "@ + self.identity,
        }
    }

    /// The descriptor after a name query answered `name`.
    pub open spec fn named(self, name: Option<Seq<char>>) -> DeviceView {
        match name {
            Some(n) => DeviceView { display_name: Some(n), ..self },
            None => self,
        }
    }
}

} // verus!
