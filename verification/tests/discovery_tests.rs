use lockdown_pairing::device::{DeviceDescriptor, NetworkAddress, Transport};
use lockdown_pairing::discovery::Discovery;
use lockdown_pairing::driver::{Action, Event};
use lockdown_pairing::error::PairingError;
use lockdown_pairing::session::Request;

fn wired(identity: &str) -> DeviceDescriptor {
    DeviceDescriptor::new(identity.to_string(), Transport::Usb)
}

fn networked(identity: &str) -> DeviceDescriptor {
    DeviceDescriptor::new(identity.to_string(), Transport::Network(NetworkAddress::V4(9), 1))
}

fn open(device: &DeviceDescriptor) -> Action {
    Action::OpenSession {
        identity: device.identity().clone(),
        transport: device.transport(),
        purpose_tag: "pairing_gen".to_string(),
    }
}

#[test]
fn discovery_starts_by_enumerating() {
    let (discovery, action) = Discovery::start();
    assert_eq!(action, Action::Enumerate);
    assert!(!discovery.is_done());
    assert_eq!(discovery.finish().err(), Some(PairingError::ProtocolError));
}

#[test]
fn zero_devices_ends_in_no_devices_found() {
    let (discovery, _) = Discovery::start();
    let (discovery, action) = discovery.step(Event::Enumerated(Some(Vec::new())));
    assert_eq!(action, Action::Finish);
    assert!(discovery.is_done());
    assert_eq!(discovery.finish().err(), Some(PairingError::NoDevicesFound));
}

#[test]
fn unreachable_service_ends_in_enumeration_unavailable() {
    let (discovery, _) = Discovery::start();
    let (discovery, action) = discovery.step(Event::Enumerated(None));
    assert_eq!(action, Action::Finish);
    assert_eq!(discovery.finish().err(), Some(PairingError::EnumerationUnavailable));
}

#[test]
fn one_device_is_asked_for_its_name() {
    let (discovery, _) = Discovery::start();
    let (discovery, action) = discovery.step(Event::Enumerated(Some(vec![wired("D1")])));
    assert_eq!(action, open(&wired("D1")));
    let (discovery, action) = discovery.step(Event::SessionOpened(true));
    assert_eq!(action, Action::Send(Request::GetName));
    let (discovery, action) = discovery.step(Event::NameReceived(Some("Phone".to_string())));
    assert_eq!(action, Action::CloseSession);
    let (discovery, action) = discovery.step(Event::SessionClosed);
    assert_eq!(action, Action::Finish);
    let registry = discovery.finish().unwrap();
    assert_eq!(registry.len(), 1);
    assert_eq!(registry.get(0).unwrap().display_name(), Some(&"Phone".to_string()));
    assert_eq!(registry.get(0).unwrap().menu_line(), "\u{1F50C} Phone - D1");
}

#[test]
fn one_failing_device_does_not_stop_the_others() {
    let found = vec![wired("A"), networked("B"), wired("C")];
    let (discovery, _) = Discovery::start();
    let (discovery, action) = discovery.step(Event::Enumerated(Some(found)));
    assert_eq!(action, open(&wired("A")));
    // A cannot be reached: no name query, no close, on to B.
    let (discovery, action) = discovery.step(Event::SessionOpened(false));
    assert_eq!(action, open(&networked("B")));
    // B opens but declines to give its name.
    let (discovery, action) = discovery.step(Event::SessionOpened(true));
    assert_eq!(action, Action::Send(Request::GetName));
    let (discovery, action) = discovery.step(Event::NameReceived(None));
    assert_eq!(action, Action::CloseSession);
    let (discovery, action) = discovery.step(Event::SessionClosed);
    assert_eq!(action, open(&wired("C")));
    let (discovery, _) = discovery.step(Event::SessionOpened(true));
    let (discovery, _) = discovery.step(Event::NameReceived(Some("Pad".to_string())));
    let (discovery, action) = discovery.step(Event::SessionClosed);
    assert_eq!(action, Action::Finish);
    assert!(discovery.is_done());
    let registry = discovery.finish().unwrap();
    let mut named_c = wired("C");
    named_c.set_display_name(Some("Pad".to_string()));
    assert_eq!(registry.devices(), &vec![wired("A"), networked("B"), named_c]);
}

fn run(found: Vec<DeviceDescriptor>, reachable: &[bool]) -> Vec<String> {
    let (mut discovery, _) = Discovery::start();
    let (next, mut action) = discovery.step(Event::Enumerated(Some(found)));
    discovery = next;
    let mut turn = 0;
    while action != Action::Finish {
        let event = match action {
            Action::OpenSession { .. } => {
                turn += 1;
                Event::SessionOpened(reachable[turn - 1])
            }
            Action::Send(Request::GetName) => Event::NameReceived(Some(format!("name{}", turn))),
            Action::CloseSession => Event::SessionClosed,
            other => panic!("unexpected action {:?}", other),
        };
        let (next, following) = discovery.step(event);
        discovery = next;
        action = following;
    }
    discovery.finish().unwrap().devices().iter().map(|d| d.menu_line()).collect()
}

#[test]
fn order_does_not_depend_on_which_devices_answer() {
    let found = vec![wired("Z"), wired("A"), networked("M")];
    let all = run(found.clone(), &[true, true, true]);
    assert_eq!(
        all,
        vec!["\u{1F50C} name1 - Z", "\u{1F50C} name2 - A", "\u{1F4F6} name3 - M"]
    );
    let some = run(found.clone(), &[false, true, false]);
    assert_eq!(some, vec!["\u{1F50C} - Z", "\u{1F50C} name2 - A", "\u{1F4F6} - M"]);
    assert_eq!(run(found.clone(), &[true, true, true]), all);
}

#[test]
fn answer_out_of_turn_closes_the_session_and_fails() {
    let (discovery, _) = Discovery::start();
    let (discovery, _) = discovery.step(Event::Enumerated(Some(vec![wired("D1")])));
    let (discovery, _) = discovery.step(Event::SessionOpened(true));
    let (discovery, action) = discovery.step(Event::FileWritten(true));
    assert_eq!(action, Action::CloseSession);
    assert!(!discovery.is_done());
    let (discovery, action) = discovery.step(Event::SessionClosed);
    assert_eq!(action, Action::Finish);
    assert_eq!(discovery.finish().err(), Some(PairingError::ProtocolError));
}

#[test]
fn answer_out_of_turn_before_enumeration_fails() {
    let (discovery, _) = Discovery::start();
    let (discovery, action) = discovery.step(Event::SessionClosed);
    assert_eq!(action, Action::Finish);
    assert_eq!(discovery.finish().err(), Some(PairingError::ProtocolError));
}

#[test]
fn ended_discovery_stays_ended() {
    let (discovery, _) = Discovery::start();
    let (discovery, _) = discovery.step(Event::Enumerated(Some(Vec::new())));
    let (discovery, action) = discovery.step(Event::SessionOpened(true));
    assert_eq!(action, Action::Finish);
    let (discovery, action) = discovery.step(Event::Enumerated(Some(vec![wired("D1")])));
    assert_eq!(action, Action::Finish);
    assert_eq!(discovery.finish().err(), Some(PairingError::NoDevicesFound));
}
