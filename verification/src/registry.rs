//! The devices that can be reached, in the order they were discovered, and
//! the workflow that finds them and asks each for its name.

use crate::device::{DeviceDescriptor, DeviceView};
use crate::driver::{device_views, Action, ActionView, Event, EventView};
use crate::error::{ErrorView, PairingError};
use crate::session::{LockdownSession, SessionView};
use crate::views::{option_view, result_view};
use vstd::prelude::*;

verus! {

/// What an enumeration yields: the devices as they were found, in the order
/// they were found in. An unreachable discovery service and an empty answer
/// are two different failures.
pub open spec fn list_devices(found: Option<Seq<DeviceView>>) -> Result<Seq<DeviceView>, ErrorView> {
    match found {
        None => Err(ErrorView::EnumerationUnavailable),
        Some(devices) => if devices.len() == 0 {
            Err(ErrorView::NoDevicesFound)
        } else {
            Ok(devices)
        },
    }
}

/// The first device of the list that has the identity, if any has.
pub open spec fn resolve_identity(devices: Seq<DeviceView>, identity: Seq<char>) -> Option<
    DeviceView,
>
    decreases devices.len(),
{
    if devices.len() == 0 {
        None
    } else if devices[0].identity == identity {
        Some(devices[0])
    } else {
        resolve_identity(devices.subrange(1, devices.len() as int), identity)
    }
}

/// The list after the device at `index` answered a name query with `name`.
/// Only that device's name can change, and only to a name that was given.
pub open spec fn resolve_name(devices: Seq<DeviceView>, index: int, name: Option<Seq<char>>) -> Seq<
    DeviceView,
> {
    if 0 <= index < devices.len() {
        devices.update(index, devices[index].named(name))
    } else {
        devices
    }
}

/// The device that needs no choosing: the only one there is.
pub open spec fn sole_device(devices: Seq<DeviceView>) -> Option<DeviceView> {
    if devices.len() == 1 {
        Some(devices[0])
    } else {
        None
    }
}

/// The device that the choice of line `index` stands for: the first device
/// in discovery order that has the identity shown on that line.
pub open spec fn select_device(devices: Seq<DeviceView>, index: int) -> Option<DeviceView> {
    if 0 <= index < devices.len() {
        resolve_identity(devices, devices[index].identity)
    } else {
        None
    }
}

/// The reachable devices in discovery order.
#[derive(Debug)]
pub struct DeviceRegistry {
    devices: Vec<DeviceDescriptor>,
}

impl View for DeviceRegistry {
    type V = Seq<DeviceView>;

    closed spec fn view(&self) -> Seq<DeviceView> {
        device_views(self.devices@)
    }
}

impl DeviceRegistry {
    /// A registry of no device: what there is before discovery.
    pub fn new() -> (registry: Self)
        ensures
            registry@ == Seq::<DeviceView>::empty(),
    {
        let registry = DeviceRegistry { devices: Vec::new() };
        assert(registry@ =~= Seq::<DeviceView>::empty());
        registry
    }

    /// Takes in what the discovery service answered: the devices it found, or
    /// `None` where it could not be reached.
    pub fn list_devices(found: Option<Vec<DeviceDescriptor>>) -> (result: Result<
        DeviceRegistry,
        PairingError,
    >)
        ensures
            result_view(result) == list_devices(
                match found {
                    Some(devices) => Some(device_views(devices@)),
                    None => None,
                },
            ),
    {
        match found {
            None => Err(PairingError::EnumerationUnavailable),
            Some(devices) => {
                if devices.len() == 0 {
                    Err(PairingError::NoDevicesFound)
                } else {
                    Ok(DeviceRegistry { devices })
                }
            },
        }
    }

    pub fn len(&self) -> (len: usize)
        ensures
            len == self@.len(),
    {
        self.devices.len()
    }

    /// The devices in discovery order.
    pub fn devices(&self) -> (devices: &Vec<DeviceDescriptor>)
        ensures
            device_views(devices@) == self@,
    {
        &self.devices
    }

    /// The device at `index` of the discovery order.
    pub fn get(&self, index: usize) -> (device: Option<&DeviceDescriptor>)
        ensures
            option_view(device) == if index < self@.len() {
                Some(self@[index as int])
            } else {
                None
            },
    {
        if index < self.devices.len() {
            Some(&self.devices[index])
        } else {
            None
        }
    }

    /// Resolves a descriptor by identity: the first in discovery order that
    /// has it.
    pub fn resolve(&self, identity: &String) -> (device: Option<&DeviceDescriptor>)
        ensures
            option_view(device) == resolve_identity(self@, identity@),
    {
        let ghost all = self@;
        let mut i: usize = 0;
        assert(all.subrange(0, all.len() as int) =~= all);
        while i < self.devices.len()
            invariant
                i <= self.devices.len(),
                all == self@,
                resolve_identity(all, identity@) == resolve_identity(
                    all.subrange(i as int, all.len() as int),
                    identity@,
                ),
            decreases self.devices.len() - i,
        {
            let ghost rest = all.subrange(i as int, all.len() as int);
            assert(rest[0] == all[i as int]);
            assert(rest.subrange(1, rest.len() as int) =~= all.subrange(
                i as int + 1,
                all.len() as int,
            ));
            if self.devices[i].has_identity(identity) {
                return Some(&self.devices[i]);
            }
            i += 1;
        }
        assert(all.subrange(i as int, all.len() as int).len() == 0);
        None
    }

    /// Records what the device at `index` answered to a name query. A device
    /// that gave no name stays in the list, without a name.
    pub fn resolve_name(&mut self, index: usize, name: Option<String>)
        ensures
            final(self)@ == resolve_name(old(self)@, index as int, option_view(name)),
    {
        if index < self.devices.len() {
            let mut device = self.devices[index].clone();
            device.set_display_name(name);
            self.devices.set(index, device);
            assert(self@ =~= resolve_name(old(self)@, index as int, option_view(name)));
        }
    }

    /// The device that the choice of line `index` of the list stands for. A
    /// device that is listed twice, once for each transport it was found on,
    /// is taken as it was found first.
    pub fn select(&self, index: usize) -> (device: Option<&DeviceDescriptor>)
        ensures
            option_view(device) == select_device(self@, index as int),
    {
        match self.get(index) {
            Some(chosen) => self.resolve(chosen.identity()),
            None => None,
        }
    }

    /// The device to use without asking: the only one, where there is just
    /// one.
    pub fn sole_device(&self) -> (device: Option<&DeviceDescriptor>)
        ensures
            option_view(device) == sole_device(self@),
    {
        if self.devices.len() == 1 {
            Some(&self.devices[0])
        } else {
            None
        }
    }
}

/// Resolving an identity yields the first device in discovery order that
/// has it, and nothing exactly when no device has it.
pub proof fn resolve_yields_the_first_match(devices: Seq<DeviceView>, identity: Seq<char>)
    ensures
        match resolve_identity(devices, identity) {
            Some(device) => exists|i: int|
                {
                    &&& 0 <= i < devices.len()
                    &&& #[trigger] devices[i] == device
                    &&& device.identity == identity
                    &&& forall|j: int| 0 <= j < i ==> devices[j].identity != identity
                },
            None => forall|i: int| 0 <= i < devices.len() ==> devices[i].identity != identity,
        },
    decreases devices.len(),
{
    if devices.len() > 0 && devices[0].identity != identity {
        let rest = devices.subrange(1, devices.len() as int);
        resolve_yields_the_first_match(rest, identity);
        match resolve_identity(rest, identity) {
            Some(device) => {
                let i = choose|i: int|
                    {
                        &&& 0 <= i < rest.len()
                        &&& #[trigger] rest[i] == device
                        &&& device.identity == identity
                        &&& forall|j: int| 0 <= j < i ==> rest[j].identity != identity
                    };
                assert(devices[i + 1] == device);
                assert forall|j: int| 0 <= j < i + 1 implies devices[j].identity != identity by {
                    if j > 0 {
                        assert(rest[j - 1] == devices[j]);
                    }
                }
            },
            None => {
                assert forall|i: int| 0 <= i < devices.len() implies devices[i].identity
                    != identity by {
                    if i > 0 {
                        assert(rest[i - 1] == devices[i]);
                    }
                }
            },
        }
    } else if devices.len() > 0 {
        assert(devices[0] == devices[0]);
    }
}

/// Every line of the list stands for a device, and that device has the
/// identity shown on the line; a line out of the list stands for none.
pub proof fn every_line_selects_a_device(devices: Seq<DeviceView>, index: int)
    ensures
        0 <= index < devices.len() ==> {
            &&& select_device(devices, index) is Some
            &&& select_device(devices, index)->0.identity == devices[index].identity
        },
        !(0 <= index < devices.len()) ==> select_device(devices, index) is None,
{
    if 0 <= index < devices.len() {
        resolve_yields_the_first_match(devices, devices[index].identity);
    }
}

/// An enumeration that finds devices yields them as they were found: the
/// same devices in the same order, however often it is asked.
pub proof fn enumeration_keeps_discovery_order(found: Seq<DeviceView>)
    requires
        found.len() > 0,
    ensures
        list_devices(Some(found)) == Ok::<Seq<DeviceView>, ErrorView>(found),
{
}

/// An enumeration that finds no device fails, and differently from one that
/// could not be made.
pub proof fn empty_enumeration_is_a_failure()
    ensures
        list_devices(Some(Seq::<DeviceView>::empty())) == Err::<Seq<DeviceView>, ErrorView>(
            ErrorView::NoDevicesFound,
        ),
        list_devices(None) == Err::<Seq<DeviceView>, ErrorView>(ErrorView::EnumerationUnavailable),
{
}

/// A name query changes nothing but the name of the device it was put to:
/// the list keeps its length and order, and every device its identity and
/// transport.
pub proof fn name_query_keeps_the_list(devices: Seq<DeviceView>, index: int, name: Option<Seq<char>>)
    ensures
        ({
            let after = resolve_name(devices, index, name);
            &&& after.len() == devices.len()
            &&& forall|i: int|
                0 <= i < devices.len() ==> {
                    &&& (#[trigger] after[i]).identity == devices[i].identity
                    &&& after[i].transport == devices[i].transport
                    &&& i != index ==> after[i] == devices[i]
                }
            &&& name is None ==> after == devices
        }),
{
    let after = resolve_name(devices, index, name);
    if name is None {
        assert(after =~= devices);
    }
}

} // verus!
