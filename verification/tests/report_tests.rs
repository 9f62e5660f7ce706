use lockdown_pairing::error::PairingError;
use lockdown_pairing::heartbeat::Outcome;
use lockdown_pairing::orchestrator::Completion;
use lockdown_pairing::report::{describe, exit_code};

#[test]
fn export_is_described_with_file_and_place() {
    let outcome = Ok(Completion::Exported {
        identity: "D1".to_string(),
        directory: "/home/me".to_string(),
        file_name: "D1.plist".to_string(),
    });
    assert_eq!(describe(&"D1".to_string(), &outcome), "D1: exported \"D1.plist\" to /home/me");
    assert_eq!(exit_code(&outcome), 0);
}

#[test]
fn test_outcomes_are_described() {
    let passed = Ok(Completion::WifiSyncTested(Outcome::Reachable));
    assert_eq!(describe(&"D1".to_string(), &passed), "D1: test succeeded");
    assert_eq!(exit_code(&passed), 0);
    let silent = Ok(Completion::WifiSyncTested(Outcome::Unreachable("Timeout".to_string())));
    assert_eq!(describe(&"D1".to_string(), &silent), "D1: test failed: Timeout");
    assert_eq!(exit_code(&silent), 0);
}

#[test]
fn enabled_setting_is_described() {
    let outcome = Ok(Completion::WifiSyncEnabled);
    assert_eq!(describe(&"D9".to_string(), &outcome), "D9: WiFi sync is on");
}

#[test]
fn failures_are_described_with_their_reason() {
    let outcome = Err(PairingError::WrongTransportForPairing);
    assert_eq!(describe(&"D2".to_string(), &outcome), "D2: the device must be plugged into USB");
    assert_eq!(exit_code(&outcome), 1);
    let unmet = Err(PairingError::PreconditionUnmet("set a passcode".to_string()));
    assert_eq!(describe(&"D2".to_string(), &unmet), "D2: set a passcode");
    assert_eq!(exit_code(&unmet), 1);
}
