use lockdown_pairing::device::{DeviceDescriptor, NetworkAddress, Transport};
use lockdown_pairing::driver::{Action, Event, WriteStatus};
use lockdown_pairing::error::PairingError;
use lockdown_pairing::heartbeat::{Outcome, ProbeTarget};
use lockdown_pairing::orchestrator::{write_reply, Completion, Operation, SessionOrchestrator};
use lockdown_pairing::session::{Request, SettingValue, WriteReply};
use lockdown_pairing::store::{PairingRecord, PairingRecordStore};

fn wired(identity: &str) -> DeviceDescriptor {
    DeviceDescriptor::new(identity.to_string(), Transport::Usb)
}

fn networked(identity: &str) -> DeviceDescriptor {
    DeviceDescriptor::new(
        identity.to_string(),
        Transport::Network(NetworkAddress::V4(0xC0A8_0107), 62078),
    )
}

fn start(operation: Operation, device: DeviceDescriptor) -> (SessionOrchestrator, Action) {
    SessionOrchestrator::start(operation, device, PairingRecordStore::new())
}

#[test]
fn operations_are_numbered_as_in_the_menu() {
    assert_eq!(Operation::from_index(0), Some(Operation::ExportPairingFile));
    assert_eq!(Operation::from_index(1), Some(Operation::TestWifiSync));
    assert_eq!(Operation::from_index(2), Some(Operation::EnableWifiSync));
    assert_eq!(Operation::from_index(3), Some(Operation::RegeneratePairing));
    assert_eq!(Operation::from_index(4), None);
    assert_eq!(Operation::from_index(usize::MAX), None);
}

#[test]
fn operations_have_their_menu_lines() {
    assert_eq!(Operation::ExportPairingFile.label(), "Export current pairing file");
    assert_eq!(Operation::TestWifiSync.label(), "Test current pairing file for WiFi sync");
    assert_eq!(Operation::EnableWifiSync.label(), "Turn on WiFi sync");
    assert_eq!(Operation::RegeneratePairing.label(), "Generate a new pairing file");
}

#[test]
fn write_status_is_interpreted() {
    assert_eq!(write_reply(WriteStatus::Success), WriteReply::Accepted);
    assert_eq!(
        write_reply(WriteStatus::UnknownError),
        WriteReply::Rejected(
            "You need to set a passcode on your device to enable WiFi sync".to_string()
        )
    );
    assert_eq!(write_reply(WriteStatus::OtherError), WriteReply::Failed);
}

#[test]
fn export_writes_the_record_of_the_host() {
    let (machine, action) = start(Operation::ExportPairingFile, wired("D1"));
    assert_eq!(action, Action::ReadPairingRecord { identity: "D1".to_string() });
    assert_eq!(machine.operation(), Operation::ExportPairingFile);
    assert_eq!(machine.device(), &wired("D1"));
    let (machine, action) = machine.step(Event::RecordRead(Some(vec![1, 2, 3])));
    assert_eq!(action, Action::ChooseDestination);
    let (machine, action) = machine.step(Event::DestinationChosen(Some("/home/me".to_string())));
    match &action {
        Action::WriteFile(file) => {
            assert_eq!(file.directory(), "/home/me");
            assert_eq!(file.file_name(), "D1.plist");
            assert_eq!(file.contents(), &vec![1u8, 2, 3]);
        }
        other => panic!("unexpected action {:?}", other),
    }
    assert!(!machine.is_done());
    let (machine, action) = machine.step(Event::FileWritten(true));
    assert_eq!(action, Action::Finish);
    assert!(machine.is_done());
    let (outcome, store) = machine.finish();
    assert_eq!(
        outcome,
        Ok(Completion::Exported {
            identity: "D1".to_string(),
            directory: "/home/me".to_string(),
            file_name: "D1.plist".to_string(),
        })
    );
    assert_eq!(
        store.read(&"D1".to_string()),
        Ok(PairingRecord::new("D1".to_string(), vec![1, 2, 3]))
    );
}

#[test]
fn export_without_a_record_is_pairing_record_not_found() {
    let (machine, _) = start(Operation::ExportPairingFile, wired("D1"));
    let (machine, action) = machine.step(Event::RecordRead(None));
    assert_eq!(action, Action::Finish);
    assert_eq!(machine.finish().0, Err(PairingError::PairingRecordNotFound));
}

#[test]
fn export_forgets_a_record_that_the_host_no_longer_holds() {
    let mut store = PairingRecordStore::new();
    store.install(PairingRecord::new("D1".to_string(), vec![9]));
    store.install(PairingRecord::new("D2".to_string(), vec![8]));
    let (machine, _) = SessionOrchestrator::start(Operation::ExportPairingFile, wired("D1"), store);
    let (machine, action) = machine.step(Event::RecordRead(None));
    assert_eq!(action, Action::Finish);
    let (outcome, store) = machine.finish();
    assert_eq!(outcome, Err(PairingError::PairingRecordNotFound));
    assert!(!store.contains(&"D1".to_string()));
    assert_eq!(store.read(&"D2".to_string()), Ok(PairingRecord::new("D2".to_string(), vec![8])));
}

#[test]
fn cancelled_destination_is_destination_not_selected() {
    let (machine, _) = start(Operation::ExportPairingFile, wired("D1"));
    let (machine, _) = machine.step(Event::RecordRead(Some(vec![1])));
    let (machine, action) = machine.step(Event::DestinationChosen(None));
    assert_eq!(action, Action::Finish);
    assert!(machine.is_done());
    assert_eq!(machine.finish().0, Err(PairingError::DestinationNotSelected));
}

#[test]
fn failed_write_is_destination_unwritable() {
    let (machine, _) = start(Operation::ExportPairingFile, wired("D1"));
    let (machine, _) = machine.step(Event::RecordRead(Some(vec![1])));
    let (machine, _) = machine.step(Event::DestinationChosen(Some("/ro".to_string())));
    let (machine, action) = machine.step(Event::FileWritten(false));
    assert_eq!(action, Action::Finish);
    assert_eq!(machine.finish().0, Err(PairingError::DestinationUnwritable));
}

#[test]
fn test_passes_at_once_for_a_network_device() {
    let (machine, action) = start(Operation::TestWifiSync, networked("D2"));
    assert_eq!(action, Action::Finish);
    assert!(machine.is_done());
    assert_eq!(machine.finish().0, Ok(Completion::WifiSyncTested(Outcome::Reachable)));
}

#[test]
fn test_of_a_wired_device_probes_the_address_given() {
    let (machine, action) = start(Operation::TestWifiSync, wired("D1"));
    assert_eq!(action, Action::AskAddress);
    let address = NetworkAddress::V4(0x0A00_0002);
    let (machine, action) = machine.step(Event::AddressEntered(Some(address)));
    assert_eq!(
        action,
        Action::Probe(ProbeTarget {
            identity: "D1".to_string(),
            address,
            port: 69,
            purpose_tag: "pairing_gen_test".to_string(),
        })
    );
    let (machine, action) = machine.step(Event::Probed(Outcome::Reachable));
    assert_eq!(action, Action::Finish);
    assert_eq!(machine.finish().0, Ok(Completion::WifiSyncTested(Outcome::Reachable)));
}

#[test]
fn test_reports_a_device_that_does_not_answer() {
    let (machine, _) = start(Operation::TestWifiSync, wired("D1"));
    let (machine, _) = machine.step(Event::AddressEntered(Some(NetworkAddress::V6(1))));
    let (machine, action) =
        machine.step(Event::Probed(Outcome::Unreachable("Timeout".to_string())));
    assert_eq!(action, Action::Finish);
    let (outcome, store) = machine.finish();
    assert_eq!(
        outcome,
        Ok(Completion::WifiSyncTested(Outcome::Unreachable("Timeout".to_string())))
    );
    assert!(!store.contains(&"D1".to_string()));
}

#[test]
fn invalid_address_fails_before_any_probe() {
    let (machine, _) = start(Operation::TestWifiSync, wired("D1"));
    let (machine, action) = machine.step(Event::AddressEntered(None));
    assert_eq!(action, Action::Finish);
    assert_eq!(machine.finish().0, Err(PairingError::InvalidAddress));
}

#[test]
fn enable_writes_the_setting_and_closes_the_session() {
    let (machine, action) = start(Operation::EnableWifiSync, wired("D1"));
    assert_eq!(
        action,
        Action::OpenSession {
            identity: "D1".to_string(),
            transport: Transport::Usb,
            purpose_tag: "pairing_file_wifi_on".to_string(),
        }
    );
    let (machine, action) = machine.step(Event::SessionOpened(true));
    assert_eq!(
        action,
        Action::Send(Request::SetValue {
            domain: "com.apple.mobile.wireless_lockdown".to_string(),
            key: "EnableWifiDebugging".to_string(),
            value: SettingValue::Boolean(true),
        })
    );
    let (machine, action) = machine.step(Event::ValueWritten(WriteStatus::Success));
    assert_eq!(action, Action::CloseSession);
    assert!(!machine.is_done());
    let (machine, action) = machine.step(Event::SessionClosed);
    assert_eq!(action, Action::Finish);
    assert_eq!(machine.finish().0, Ok(Completion::WifiSyncEnabled));
}

#[test]
fn enable_over_network_is_allowed() {
    let (machine, action) = start(Operation::EnableWifiSync, networked("D2"));
    assert_eq!(
        action,
        Action::OpenSession {
            identity: "D2".to_string(),
            transport: Transport::Network(NetworkAddress::V4(0xC0A8_0107), 62078),
            purpose_tag: "pairing_file_wifi_on".to_string(),
        }
    );
    let (_, action) = machine.step(Event::SessionOpened(true));
    assert!(matches!(action, Action::Send(Request::SetValue { .. })));
}

#[test]
fn missing_passcode_is_precondition_unmet_and_not_retried() {
    let (machine, _) = start(Operation::EnableWifiSync, wired("D1"));
    let (machine, _) = machine.step(Event::SessionOpened(true));
    let (machine, action) = machine.step(Event::ValueWritten(WriteStatus::UnknownError));
    assert_eq!(action, Action::CloseSession);
    let (machine, action) = machine.step(Event::SessionClosed);
    assert_eq!(action, Action::Finish);
    // Nothing more is sent, whatever comes in.
    let (machine, action) = machine.step(Event::ValueWritten(WriteStatus::Success));
    assert_eq!(action, Action::Finish);
    let (machine, action) = machine.step(Event::SessionOpened(true));
    assert_eq!(action, Action::Finish);
    assert_eq!(
        machine.finish().0,
        Err(PairingError::PreconditionUnmet(
            "You need to set a passcode on your device to enable WiFi sync".to_string()
        ))
    );
}

#[test]
fn other_write_failure_is_a_protocol_error() {
    let (machine, _) = start(Operation::EnableWifiSync, wired("D1"));
    let (machine, _) = machine.step(Event::SessionOpened(true));
    let (machine, action) = machine.step(Event::ValueWritten(WriteStatus::OtherError));
    assert_eq!(action, Action::CloseSession);
    let (machine, _) = machine.step(Event::SessionClosed);
    assert_eq!(machine.finish().0, Err(PairingError::ProtocolError));
}

#[test]
fn unreachable_device_is_session_open_failed() {
    let (machine, _) = start(Operation::EnableWifiSync, wired("D1"));
    let (machine, action) = machine.step(Event::SessionOpened(false));
    assert_eq!(action, Action::Finish);
    assert_eq!(machine.finish().0, Err(PairingError::SessionOpenFailed));
    let (machine, _) = start(Operation::RegeneratePairing, wired("D1"));
    let (machine, action) = machine.step(Event::SessionOpened(false));
    assert_eq!(action, Action::Finish);
    assert_eq!(machine.finish().0, Err(PairingError::SessionOpenFailed));
}

#[test]
fn regenerate_pairs_then_exports_the_new_record() {
    // One wired device without a record on the host.
    let (machine, action) = start(Operation::RegeneratePairing, wired("D1"));
    assert_eq!(
        action,
        Action::OpenSession {
            identity: "D1".to_string(),
            transport: Transport::Usb,
            purpose_tag: "pairing_file_gen".to_string(),
        }
    );
    let (machine, action) = machine.step(Event::SessionOpened(true));
    assert_eq!(action, Action::Send(Request::Pair));
    let (machine, action) = machine.step(Event::PairingFinished(true));
    assert_eq!(action, Action::ReadPairingRecord { identity: "D1".to_string() });
    let payload = b"<plist>new</plist>".to_vec();
    let (machine, action) = machine.step(Event::RecordRead(Some(payload.clone())));
    assert_eq!(action, Action::CloseSession);
    let (machine, action) = machine.step(Event::SessionClosed);
    assert_eq!(action, Action::ChooseDestination);
    let (machine, action) = machine.step(Event::DestinationChosen(Some("out".to_string())));
    match &action {
        Action::WriteFile(file) => {
            assert_eq!(file.file_name(), "D1.plist");
            assert_eq!(file.directory(), "out");
            assert!(!file.contents().is_empty());
            assert_eq!(file.contents(), &payload);
        }
        other => panic!("unexpected action {:?}", other),
    }
    let (machine, action) = machine.step(Event::FileWritten(true));
    assert_eq!(action, Action::Finish);
    let (outcome, store) = machine.finish();
    assert_eq!(
        outcome,
        Ok(Completion::Exported {
            identity: "D1".to_string(),
            directory: "out".to_string(),
            file_name: "D1.plist".to_string(),
        })
    );
    let record = store.read(&"D1".to_string()).unwrap();
    assert_eq!(record.owner_identity(), "D1");
    assert_eq!(record.payload(), &payload);
}

#[test]
fn regenerate_replaces_the_old_record() {
    let mut store = PairingRecordStore::new();
    store.install(PairingRecord::new("D1".to_string(), vec![1, 1, 1]));
    let (machine, _) = SessionOrchestrator::start(Operation::RegeneratePairing, wired("D1"), store);
    let (machine, _) = machine.step(Event::SessionOpened(true));
    let (machine, _) = machine.step(Event::PairingFinished(true));
    let (machine, _) = machine.step(Event::RecordRead(Some(vec![2, 2])));
    let (machine, _) = machine.step(Event::SessionClosed);
    let (machine, action) = machine.step(Event::DestinationChosen(None));
    assert_eq!(action, Action::Finish);
    let (outcome, store) = machine.finish();
    assert_eq!(outcome, Err(PairingError::DestinationNotSelected));
    assert_eq!(
        store.read(&"D1".to_string()),
        Ok(PairingRecord::new("D1".to_string(), vec![2, 2]))
    );
}

#[test]
fn regenerate_over_network_is_wrong_transport() {
    let (machine, action) = start(Operation::RegeneratePairing, networked("D2"));
    assert_eq!(action, Action::Finish);
    assert!(machine.is_done());
    let (machine, action) = machine.step(Event::SessionOpened(true));
    assert_eq!(action, Action::Finish);
    assert_eq!(machine.finish().0, Err(PairingError::WrongTransportForPairing));
}

#[test]
fn failed_pairing_ends_without_an_export() {
    let (machine, _) = start(Operation::RegeneratePairing, wired("D1"));
    let (machine, _) = machine.step(Event::SessionOpened(true));
    let (machine, action) = machine.step(Event::PairingFinished(false));
    assert_eq!(action, Action::CloseSession);
    let (machine, action) = machine.step(Event::SessionClosed);
    assert_eq!(action, Action::Finish);
    let (outcome, store) = machine.finish();
    assert_eq!(outcome, Err(PairingError::ProtocolError));
    assert!(!store.contains(&"D1".to_string()));
}

#[test]
fn pairing_that_leaves_no_record_ends_without_an_export() {
    let mut store = PairingRecordStore::new();
    store.install(PairingRecord::new("D1".to_string(), vec![1]));
    let (machine, _) = SessionOrchestrator::start(Operation::RegeneratePairing, wired("D1"), store);
    let (machine, _) = machine.step(Event::SessionOpened(true));
    let (machine, _) = machine.step(Event::PairingFinished(true));
    let (machine, action) = machine.step(Event::RecordRead(None));
    assert_eq!(action, Action::CloseSession);
    let (machine, action) = machine.step(Event::SessionClosed);
    assert_eq!(action, Action::Finish);
    let (outcome, store) = machine.finish();
    assert_eq!(outcome, Err(PairingError::PairingRecordNotFound));
    assert!(!store.contains(&"D1".to_string()));
}

#[test]
fn answer_out_of_turn_after_pairing_closes_the_session() {
    let (machine, _) = start(Operation::RegeneratePairing, wired("D1"));
    let (machine, _) = machine.step(Event::SessionOpened(true));
    let (machine, _) = machine.step(Event::PairingFinished(true));
    let (machine, action) = machine.step(Event::PairingFinished(true));
    assert_eq!(action, Action::CloseSession);
    let (machine, _) = machine.step(Event::SessionClosed);
    assert_eq!(machine.finish().0, Err(PairingError::ProtocolError));
}

#[test]
fn answer_out_of_turn_closes_the_session_first() {
    let (machine, _) = start(Operation::EnableWifiSync, wired("D1"));
    let (machine, _) = machine.step(Event::SessionOpened(true));
    let (machine, action) = machine.step(Event::FileWritten(true));
    assert_eq!(action, Action::CloseSession);
    let (machine, action) = machine.step(Event::SessionClosed);
    assert_eq!(action, Action::Finish);
    assert_eq!(machine.finish().0, Err(PairingError::ProtocolError));
}

#[test]
fn answer_out_of_turn_without_a_session_ends_at_once() {
    let (machine, _) = start(Operation::ExportPairingFile, wired("D1"));
    let (machine, action) = machine.step(Event::SessionOpened(true));
    assert_eq!(action, Action::Finish);
    assert_eq!(machine.finish().0, Err(PairingError::ProtocolError));
}

#[test]
fn operation_that_has_not_ended_has_no_outcome() {
    let (machine, _) = start(Operation::ExportPairingFile, wired("D1"));
    assert!(!machine.is_done());
    assert_eq!(machine.finish().0, Err(PairingError::ProtocolError));
}
