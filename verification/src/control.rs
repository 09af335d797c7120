//! The recorder control protocol as the orchestrator uses it: the command
//! line of a status or stop request to the control binary, and how its
//! answer becomes the live status of a service.

use vstd::prelude::*;

use crate::model::ServiceLiveStatus;
use crate::text::{decimal, trim, trimmed, u64_text};
use crate::worker::{push_value, texts};

verus! {

/// Where the control binary is and how long a request to it may take.
#[derive(Debug)]
pub struct ControlClient {
    pub control_bin: String,
    pub timeout_ms: u64,
}

/// A request to the control binary.
#[derive(Clone, Copy, Debug, PartialEq, Eq, Structural)]
pub enum ControlAction {
    Status,
    Stop,
}

/// Name of a control request on the control binary's command line.
pub open spec fn action_text(a: ControlAction) -> Seq<char> {
    match a {
        ControlAction::Status => "status"@,
        ControlAction::Stop => "stop"@,
    }
}

/// The command line of a control request about `service`.
pub open spec fn control_args_spec(a: ControlAction, service: Seq<char>, timeout_ms: u64) -> Seq<
    Seq<char>,
> {
    seq![
        "--format"@,
        "JSON"@,
        action_text(a),
        "--service"@,
        service,
        "--timeout-ms"@,
        decimal(timeout_ms as nat),
    ]
}

impl ControlClient {
    /// Arguments of the control binary for `action` on `service`, with JSON
    /// output and this client's timeout.
    pub fn command_args(&self, action: ControlAction, service: &str) -> (args: Vec<String>)
        ensures
            texts(args@) == control_args_spec(action, service@, self.timeout_ms),
    {
        let mut args: Vec<String> = Vec::new();
        push_value(&mut args, "--format", "JSON");
        let verb = match action {
            ControlAction::Status => String::from_str("status"),
            ControlAction::Stop => String::from_str("stop"),
        };
        let ghost before = texts(args@);
        args.push(verb);
        proof {
            assert(texts(args@) =~= before.push(action_text(action)));
        }
        push_value(&mut args, "--service", service);
        let timeout = u64_text(self.timeout_ms);
        push_value(&mut args, "--timeout-ms", timeout.as_str());
        proof {
            assert(texts(args@) =~= control_args_spec(action, service@, self.timeout_ms));
        }
        args
    }
}

/// What the control binary reports about a live recorder.
#[derive(Debug)]
pub struct ControlStatusReport {
    pub is_paused: bool,
    pub dropped_while_paused: u64,
    pub paused_since_ns: Option<u64>,
    pub committed_records: u64,
    pub payload_bytes_committed: u64,
}

/// The live status of a recorder whose control endpoint answered with
/// `report`.
pub fn live_status(report: ControlStatusReport) -> (s: ServiceLiveStatus)
    ensures
        s.available,
        s.is_paused == Some(report.is_paused),
        s.dropped_while_paused == Some(report.dropped_while_paused),
        s.paused_since_ns == report.paused_since_ns,
        s.committed_records == Some(report.committed_records),
        s.payload_bytes_committed == Some(report.payload_bytes_committed),
        s.message is None,
{
    ServiceLiveStatus {
        available: true,
        is_paused: Some(report.is_paused),
        dropped_while_paused: Some(report.dropped_while_paused),
        paused_since_ns: report.paused_since_ns,
        committed_records: Some(report.committed_records),
        payload_bytes_committed: Some(report.payload_bytes_committed),
        message: None,
    }
}

/// The replacement-character decoding of `bytes` as UTF-8 that
/// `String::from_utf8_lossy` performs.
pub uninterp spec fn utf8_lossy(bytes: Seq<u8>) -> Seq<char>;

/// `String::from_utf8_lossy`: `bytes` decoded as UTF-8, invalid sequences
/// replaced.
#[verifier::external_body]
fn lossy_text(bytes: &[u8]) -> (r: String)
    ensures
        r@ == utf8_lossy(bytes@),
{
    String::from_utf8_lossy(bytes).to_string()
}

/// The live status of a recorder whose control request failed with the
/// error text `message`: not live, no counters, and the message trimmed.
pub fn unavailable_with(message: String) -> (s: ServiceLiveStatus)
    ensures
        !s.available,
        s.is_paused is None,
        s.dropped_while_paused is None,
        s.paused_since_ns is None,
        s.committed_records is None,
        s.payload_bytes_committed is None,
        s.message matches Some(m) && m@ == trimmed(message@),
{
    let trimmed_message = String::from_str(trim(message.as_str()));
    ServiceLiveStatus {
        available: false,
        is_paused: None,
        dropped_while_paused: None,
        paused_since_ns: None,
        committed_records: None,
        payload_bytes_committed: None,
        message: Some(trimmed_message),
    }
}

/// The live status of a recorder whose control request failed: not live,
/// with the trimmed error message: the message of the structured error
/// payload when the error output held one, the error output itself
/// otherwise.
pub fn unavailable_status(structured_message: Option<String>, stderr: &[u8]) -> (s:
    ServiceLiveStatus)
    ensures
        !s.available,
        s.is_paused is None,
        s.dropped_while_paused is None,
        s.paused_since_ns is None,
        s.committed_records is None,
        s.payload_bytes_committed is None,
        s.message matches Some(m) && m@ == trimmed(
            match structured_message {
                Some(t) => t@,
                None => utf8_lossy(stderr@),
            },
        ),
{
    let message = match structured_message {
        Some(t) => t,
        None => lossy_text(stderr),
    };
    unavailable_with(message)
}

} // verus!
