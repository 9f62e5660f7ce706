use lockdown_pairing::error::PairingError;
use lockdown_pairing::store::{PairingRecord, PairingRecordStore};

fn record(identity: &str, payload: &[u8]) -> PairingRecord {
    PairingRecord::new(identity.to_string(), payload.to_vec())
}

#[test]
fn record_keeps_owner_and_payload() {
    let r = record("D1", &[1, 2, 3]);
    assert_eq!(r.owner_identity(), "D1");
    assert_eq!(r.payload(), &vec![1u8, 2, 3]);
    assert_eq!(r.clone(), r);
}

#[test]
fn empty_store_holds_nothing() {
    let store = PairingRecordStore::new();
    assert!(!store.contains(&"D1".to_string()));
    assert_eq!(store.read(&"D1".to_string()), Err(PairingError::PairingRecordNotFound));
}

#[test]
fn read_returns_the_installed_record() {
    let mut store = PairingRecordStore::new();
    store.install(record("D1", &[9, 8, 7]));
    store.install(record("D2", &[1]));
    assert!(store.contains(&"D1".to_string()));
    assert_eq!(store.read(&"D1".to_string()), Ok(record("D1", &[9, 8, 7])));
    assert_eq!(store.read(&"D2".to_string()), Ok(record("D2", &[1])));
    assert_eq!(store.read(&"D3".to_string()), Err(PairingError::PairingRecordNotFound));
}

#[test]
fn install_replaces_the_record_of_the_same_identity() {
    let mut store = PairingRecordStore::new();
    store.install(record("D1", &[1, 1, 1]));
    store.install(record("D2", &[2]));
    store.install(record("D1", &[3, 3]));
    assert_eq!(store.read(&"D1".to_string()), Ok(record("D1", &[3, 3])));
    assert_eq!(store.read(&"D2".to_string()), Ok(record("D2", &[2])));
}

#[test]
fn remove_takes_out_only_the_identity_given() {
    let mut store = PairingRecordStore::new();
    store.install(record("D1", &[1]));
    store.install(record("D2", &[2]));
    store.install(record("D3", &[3]));
    store.remove(&"D2".to_string());
    assert_eq!(store.read(&"D2".to_string()), Err(PairingError::PairingRecordNotFound));
    assert_eq!(store.read(&"D1".to_string()), Ok(record("D1", &[1])));
    assert_eq!(store.read(&"D3".to_string()), Ok(record("D3", &[3])));
    store.remove(&"D9".to_string());
    assert_eq!(store.read(&"D1".to_string()), Ok(record("D1", &[1])));
}

#[test]
fn refresh_follows_what_the_host_holds() {
    let mut store = PairingRecordStore::new();
    store.refresh(&"D1".to_string(), Some(vec![5, 6]));
    assert_eq!(store.read(&"D1".to_string()), Ok(record("D1", &[5, 6])));
    store.refresh(&"D1".to_string(), Some(vec![7]));
    assert_eq!(store.read(&"D1".to_string()), Ok(record("D1", &[7])));
    store.refresh(&"D1".to_string(), None);
    assert_eq!(store.read(&"D1".to_string()), Err(PairingError::PairingRecordNotFound));
}

#[test]
fn export_names_the_file_after_the_identity() {
    let store = PairingRecordStore::new();
    let r = record("00008030-001A", &[60, 63, 120]);
    let file = store.export(&r, Some("/tmp/out".to_string())).unwrap();
    assert_eq!(file.directory(), "/tmp/out");
    assert_eq!(file.file_name(), "00008030-001A.plist");
    assert_eq!(file.contents(), &vec![60u8, 63, 120]);
    assert_eq!(file.clone(), file);
}

#[test]
fn export_without_destination_is_refused() {
    let store = PairingRecordStore::new();
    let r = record("D1", &[1]);
    assert_eq!(store.export(&r, None), Err(PairingError::DestinationNotSelected));
}

#[test]
fn export_leaves_record_and_store_as_they_were() {
    let mut store = PairingRecordStore::new();
    store.install(record("D1", &[4, 5]));
    let r = store.read(&"D1".to_string()).unwrap();
    let _ = store.export(&r, Some("out".to_string())).unwrap();
    assert_eq!(r, record("D1", &[4, 5]));
    assert_eq!(store.read(&"D1".to_string()), Ok(record("D1", &[4, 5])));
}

#[test]
fn exported_bytes_read_back_give_the_same_payload() {
    let mut store = PairingRecordStore::new();
    let payload: Vec<u8> = (0..=255u8).collect();
    store.install(PairingRecord::new("D1".to_string(), payload.clone()));
    let read = store.read(&"D1".to_string()).unwrap();
    let file = store.export(&read, Some("backup".to_string())).unwrap();
    let reread = PairingRecord::new("D1".to_string(), file.contents().clone());
    assert_eq!(reread.payload(), read.payload());
    assert_eq!(reread, read);
    store.refresh(&"D1".to_string(), Some(file.contents().clone()));
    assert_eq!(store.read(&"D1".to_string()), Ok(read));
}

#[test]
fn confirm_tells_a_failed_write() {
    let store = PairingRecordStore::new();
    let file = store.export(&record("D1", &[1]), Some("out".to_string())).unwrap();
    assert_eq!(file.confirm(true), Ok(()));
    assert_eq!(file.confirm(false), Err(PairingError::DestinationUnwritable));
}
