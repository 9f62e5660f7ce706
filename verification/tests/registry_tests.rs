use lockdown_pairing::device::{DeviceDescriptor, NetworkAddress, Transport};
use lockdown_pairing::error::PairingError;
use lockdown_pairing::registry::DeviceRegistry;

fn wired(identity: &str) -> DeviceDescriptor {
    DeviceDescriptor::new(identity.to_string(), Transport::Usb)
}

fn networked(identity: &str) -> DeviceDescriptor {
    DeviceDescriptor::new(identity.to_string(), Transport::Network(NetworkAddress::V4(9), 1))
}

fn identities(registry: &DeviceRegistry) -> Vec<String> {
    registry.devices().iter().map(|d| d.identity().clone()).collect()
}

#[test]
fn new_registry_is_empty() {
    let registry = DeviceRegistry::new();
    assert_eq!(registry.len(), 0);
    assert_eq!(registry.get(0), None);
    assert_eq!(registry.sole_device(), None);
}

#[test]
fn unreachable_discovery_service_is_enumeration_unavailable() {
    let result = DeviceRegistry::list_devices(None);
    assert_eq!(result.err(), Some(PairingError::EnumerationUnavailable));
}

#[test]
fn zero_devices_is_no_devices_found() {
    let result = DeviceRegistry::list_devices(Some(Vec::new()));
    assert_eq!(result.err(), Some(PairingError::NoDevicesFound));
}

#[test]
fn list_devices_keeps_discovery_order() {
    let found = vec![wired("C"), networked("A"), wired("B"), networked("C")];
    let registry = DeviceRegistry::list_devices(Some(found.clone())).unwrap();
    assert_eq!(registry.len(), 4);
    assert_eq!(registry.devices(), &found);
    assert_eq!(identities(&registry), vec!["C", "A", "B", "C"]);
}

#[test]
fn enumerating_twice_gives_the_same_order() {
    let found = vec![wired("Z"), wired("M"), networked("A")];
    let first = DeviceRegistry::list_devices(Some(found.clone())).unwrap();
    let second = DeviceRegistry::list_devices(Some(found)).unwrap();
    assert_eq!(first.devices(), second.devices());
}

#[test]
fn get_is_by_place_in_discovery_order() {
    let registry = DeviceRegistry::list_devices(Some(vec![wired("A"), wired("B")])).unwrap();
    assert_eq!(registry.get(0), Some(&wired("A")));
    assert_eq!(registry.get(1), Some(&wired("B")));
    assert_eq!(registry.get(2), None);
    assert_eq!(registry.get(usize::MAX), None);
}

#[test]
fn resolve_finds_the_first_of_an_identity() {
    let registry = DeviceRegistry::list_devices(Some(vec![
        wired("A"),
        networked("B"),
        wired("B"),
    ]))
    .unwrap();
    assert_eq!(registry.resolve(&"B".to_string()), Some(&networked("B")));
    assert_eq!(registry.resolve(&"A".to_string()), Some(&wired("A")));
    assert_eq!(registry.resolve(&"C".to_string()), None);
}

#[test]
fn select_takes_the_first_device_of_the_identity_chosen() {
    let registry = DeviceRegistry::list_devices(Some(vec![
        wired("A"),
        networked("B"),
        wired("B"),
    ]))
    .unwrap();
    assert_eq!(registry.select(0), Some(&wired("A")));
    assert_eq!(registry.select(1), Some(&networked("B")));
    assert_eq!(registry.select(2), Some(&networked("B")));
    assert_eq!(registry.select(3), None);
}

#[test]
fn resolve_name_names_one_device() {
    let mut registry =
        DeviceRegistry::list_devices(Some(vec![wired("A"), wired("B"), wired("C")])).unwrap();
    registry.resolve_name(1, Some("Phone".to_string()));
    assert_eq!(registry.get(0), Some(&wired("A")));
    assert_eq!(registry.get(1).unwrap().display_name(), Some(&"Phone".to_string()));
    assert_eq!(registry.get(1).unwrap().identity(), "B");
    assert_eq!(registry.get(2), Some(&wired("C")));
    assert_eq!(identities(&registry), vec!["A", "B", "C"]);
}

#[test]
fn resolve_name_without_a_name_changes_nothing() {
    let found = vec![wired("A"), wired("B")];
    let mut registry = DeviceRegistry::list_devices(Some(found.clone())).unwrap();
    registry.resolve_name(0, None);
    registry.resolve_name(7, Some("ghost".to_string()));
    assert_eq!(registry.devices(), &found);
}

#[test]
fn sole_device_is_the_only_one() {
    let one = DeviceRegistry::list_devices(Some(vec![networked("A")])).unwrap();
    assert_eq!(one.sole_device(), Some(&networked("A")));
    let two = DeviceRegistry::list_devices(Some(vec![wired("A"), wired("B")])).unwrap();
    assert_eq!(two.sole_device(), None);
}
