//! What the operator is told when an operation has ended.

use crate::error::{ErrorView, PairingError};
use crate::heartbeat::{Outcome, OutcomeView};
use crate::orchestrator::{Completion, CompletionView, Ending};
use crate::views::result_view;
use vstd::prelude::*;

verus! {

/// The line that tells how an operation on the device `identity` ended. It
/// names the device, and then the file and the place it went to, or the
/// reason of the failure.
pub open spec fn outcome_line(identity: Seq<char>, outcome: Ending) -> Seq<char> {
    match outcome {
        Ok(CompletionView::Exported { identity: _, directory, file_name }) => identity
            + ": exported \""@ + file_name + "\" to "@ + directory,
        Ok(CompletionView::WifiSyncTested(OutcomeView::Reachable)) => identity
            + ": test succeeded"@,
        Ok(CompletionView::WifiSyncTested(OutcomeView::Unreachable(reason))) => identity
            + ": test failed: "@ + reason,
        Ok(CompletionView::WifiSyncEnabled) => identity + ": WiFi sync is on"@,
        Err(failure) => identity + ": "@ + failure.reason(),
    }
}

/// The status the process ends with: zero, unless the operation failed. A
/// device that did not answer a test is a finding, not a failure.
pub open spec fn exit_status(outcome: Ending) -> int {
    match outcome {
        Ok(_) => 0,
        Err(_) => 1,
    }
}

/// Writes the line that tells how an operation on the device `identity`
/// ended.
pub fn describe(identity: &String, outcome: &Result<Completion, PairingError>) -> (line: String)
    ensures
        line@ == outcome_line(identity@, result_view(*outcome)),
{
    let mut line = identity.clone();
    match outcome {
        Ok(Completion::Exported { identity: _, directory, file_name }) => {
            line.append(": exported \"");
            line.append(file_name.as_str());
            line.append("\" to ");
            line.append(directory.as_str());
        },
        Ok(Completion::WifiSyncTested(Outcome::Reachable)) => {
            line.append(": test succeeded");
        },
        Ok(Completion::WifiSyncTested(Outcome::Unreachable(reason))) => {
            line.append(": test failed: ");
            line.append(reason.as_str());
        },
        Ok(Completion::WifiSyncEnabled) => {
            line.append(": WiFi sync is on");
        },
        Err(failure) => {
            line.append(": ");
            let reason = failure.reason();
            line.append(reason.as_str());
        },
    }
    line
}

/// The status the process is to end with.
pub fn exit_code(outcome: &Result<Completion, PairingError>) -> (status: i32)
    ensures
        status == exit_status(result_view(*outcome)),
{
    match outcome {
        Ok(_) => 0,
        Err(_) => 1,
    }
}

} // verus!
