//! The versioned request/response schema between the command-line client and
//! the daemon, and the version handshake on both sides.

use vstd::prelude::*;

use crate::error::{CommandError, code_of, exit_code_of, kind_of_exit_code, message_of};
use crate::model::{AsyncIoBackend, ChecksumMode, OutOfSpacePolicy, PersistenceMode,
    RecorderProfile, ServiceHealth, CONTROL_API_VERSION};
use crate::text::{decimal, join4, u64_text};

verus! {

/// A request with the API version the client speaks.
#[derive(Debug)]
pub struct RequestEnvelope {
    pub version: u16,
    pub command: RequestCommand,
}

/// What a client asks the daemon to do.
#[derive(Debug)]
pub enum RequestCommand {
    Enable(EnableRequest),
    Disable(ServiceRequest),
    Pause(ServiceRequest),
    Resume(ServiceRequest),
    Start(ServiceRequest),
    Stop(ServiceRequest),
    Status(ServiceRequest),
    List,
    Reconcile,
    DaemonStatus,
    Shutdown,
}

/// A request about one service.
#[derive(Debug)]
pub struct ServiceRequest {
    pub service: String,
}

/// The configuration an `enable` request asks for.
#[derive(Debug)]
pub struct EnableRequest {
    pub service: String,
    pub instance: String,
    pub storage_path: String,
    pub metadata_log_path: String,
    pub profile: RecorderProfile,
    pub mode: PersistenceMode,
    pub cycle_time_ms: u64,
    pub flush_interval_ms: u64,
    pub max_disk_bytes: Option<u64>,
    pub async_io_backend: Option<AsyncIoBackend>,
    pub io_uring_queue_depth: Option<u32>,
    pub io_submit_batch_max: Option<u32>,
    pub io_cqe_batch_max: Option<u32>,
    pub io_uring_register_files: Option<bool>,
    pub checksum_mode: Option<ChecksumMode>,
    pub out_of_space_policy: Option<OutOfSpacePolicy>,
    pub metadata_log_roll_bytes: Option<u64>,
    pub metadata_log_max_bytes: Option<u64>,
}

/// An `EnableRequest` with its texts taken as character sequences.
pub struct EnableRequestView {
    pub service: Seq<char>,
    pub instance: Seq<char>,
    pub storage_path: Seq<char>,
    pub metadata_log_path: Seq<char>,
    pub profile: RecorderProfile,
    pub mode: PersistenceMode,
    pub cycle_time_ms: u64,
    pub flush_interval_ms: u64,
    pub max_disk_bytes: Option<u64>,
    pub async_io_backend: Option<AsyncIoBackend>,
    pub io_uring_queue_depth: Option<u32>,
    pub io_submit_batch_max: Option<u32>,
    pub io_cqe_batch_max: Option<u32>,
    pub io_uring_register_files: Option<bool>,
    pub checksum_mode: Option<ChecksumMode>,
    pub out_of_space_policy: Option<OutOfSpacePolicy>,
    pub metadata_log_roll_bytes: Option<u64>,
    pub metadata_log_max_bytes: Option<u64>,
}

impl View for EnableRequest {
    type V = EnableRequestView;

    open spec fn view(&self) -> EnableRequestView {
        EnableRequestView {
            service: self.service@,
            instance: self.instance@,
            storage_path: self.storage_path@,
            metadata_log_path: self.metadata_log_path@,
            profile: self.profile,
            mode: self.mode,
            cycle_time_ms: self.cycle_time_ms,
            flush_interval_ms: self.flush_interval_ms,
            max_disk_bytes: self.max_disk_bytes,
            async_io_backend: self.async_io_backend,
            io_uring_queue_depth: self.io_uring_queue_depth,
            io_submit_batch_max: self.io_submit_batch_max,
            io_cqe_batch_max: self.io_cqe_batch_max,
            io_uring_register_files: self.io_uring_register_files,
            checksum_mode: self.checksum_mode,
            out_of_space_policy: self.out_of_space_policy,
            metadata_log_roll_bytes: self.metadata_log_roll_bytes,
            metadata_log_max_bytes: self.metadata_log_max_bytes,
        }
    }
}

/// An answer with the API version the daemon speaks.
#[derive(Debug)]
pub struct ResponseEnvelope {
    pub version: u16,
    pub response: ResponsePayload,
}

/// The outcome of a request.
#[derive(Debug)]
pub enum ResponsePayload {
    Success(Box<CommandResponse>),
    Error(ErrorPayload),
}

/// A failed request: stable code, text and the exit code the client uses.
#[derive(Debug)]
pub struct ErrorPayload {
    pub error_code: String,
    pub message: String,
    pub exit_code: i32,
}

/// The result of each kind of request.
#[derive(Debug)]
pub enum CommandResponse {
    Enable { service: String, changed: bool, generation: u64, started: bool },
    Disable { service: String, changed: bool, stop_requested: bool },
    Pause { service: String, changed: bool, stop_requested: bool },
    Resume { service: String, changed: bool, started: bool },
    Start { service: String, changed: bool, started: bool },
    Stop { service: String, stop_requested: bool },
    Status {
        service: String,
        configured: bool,
        enabled: bool,
        paused: bool,
        health: Option<ServiceHealth>,
    },
    List { services: Vec<ListEntry> },
    Reconcile {
        started_services: Vec<String>,
        stopped_services: Vec<String>,
        already_running_services: Vec<String>,
        degraded_services: Vec<String>,
    },
    DaemonStatus {
        state_path: String,
        control_service: String,
        reconcile_interval_ms: u64,
        known_services: usize,
    },
    Shutdown { accepted: bool },
}

/// One service in a list answer.
#[derive(Debug)]
pub struct ListEntry {
    pub service: String,
    pub enabled: bool,
    pub paused: bool,
    pub health: Option<ServiceHealth>,
}

/// Text of the daemon's refusal of a request of another API version.
pub open spec fn unsupported_version_message(version: u16) -> Seq<char> {
    "unsupported control API version "@ + decimal(version as nat) + ", expected "@ + decimal(
        CONTROL_API_VERSION as nat,
    )
}

/// Text of the client's refusal of an answer of another API version.
pub open spec fn version_mismatch_message(version: u16) -> Seq<char> {
    "orchestrator control API version mismatch: daemon="@ + decimal(version as nat)
        + ", client="@ + decimal(CONTROL_API_VERSION as nat)
}

/// The daemon accepts requests of its own API version only; any other
/// version is invalid input.
pub fn check_request_version(version: u16) -> (r: Result<(), CommandError>)
    ensures
        version == CONTROL_API_VERSION ==> r is Ok,
        version != CONTROL_API_VERSION ==> (r matches Err(CommandError::InvalidInput(m))
            && m@ == unsupported_version_message(version)),
{
    if version == CONTROL_API_VERSION {
        Ok(())
    } else {
        let found = u64_text(version as u64);
        let expected = u64_text(CONTROL_API_VERSION as u64);
        Err(
            CommandError::InvalidInput(
                join4(
                    "unsupported control API version ",
                    found.as_str(),
                    ", expected ",
                    expected.as_str(),
                ),
            ),
        )
    }
}

/// `env` answers a request whose handling gave `result`: the daemon's own
/// version, and either the result or the payload of the failure.
pub open spec fn answers(result: Result<CommandResponse, CommandError>, env: ResponseEnvelope) -> bool {
    &&& env.version == CONTROL_API_VERSION
    &&& result is Ok ==> (env.response matches ResponsePayload::Success(b) && *b == result->Ok_0)
    &&& result is Err ==> (env.response matches ResponsePayload::Error(p) && p.error_code@
        == code_of(result->Err_0) && p.message@ == message_of(result->Err_0) && p.exit_code
        == exit_code_of(result->Err_0))
}

/// The envelope the daemon answers with.
pub fn respond(result: Result<CommandResponse, CommandError>) -> (env: ResponseEnvelope)
    ensures
        answers(result, env),
{
    match result {
        Ok(payload) => ResponseEnvelope {
            version: CONTROL_API_VERSION,
            response: ResponsePayload::Success(Box::new(payload)),
        },
        Err(error) => ResponseEnvelope {
            version: CONTROL_API_VERSION,
            response: ResponsePayload::Error(error.to_payload()),
        },
    }
}

/// `r` is what the client makes of the daemon's answer `env`: an answer of
/// another API version means the daemon is not available to this client;
/// otherwise the result, or the failure that the error payload stands for.
pub open spec fn accepts(env: ResponseEnvelope, r: Result<CommandResponse, CommandError>) -> bool {
    &&& env.version != CONTROL_API_VERSION ==> (r matches Err(CommandError::NotAvailable(m))
        && m@ == version_mismatch_message(env.version))
    &&& env.version == CONTROL_API_VERSION ==> match env.response {
        ResponsePayload::Success(b) => r == Ok::<CommandResponse, CommandError>(*b),
        ResponsePayload::Error(p) => r is Err && kind_of_exit_code(p.exit_code, p.message@, r->Err_0),
    }
}

/// What the client makes of the daemon's answer.
pub fn accept_response(env: ResponseEnvelope) -> (r: Result<CommandResponse, CommandError>)
    ensures
        accepts(env, r),
{
    if env.version != CONTROL_API_VERSION {
        let found = u64_text(env.version as u64);
        let expected = u64_text(CONTROL_API_VERSION as u64);
        return Err(
            CommandError::NotAvailable(
                join4(
                    "orchestrator control API version mismatch: daemon=",
                    found.as_str(),
                    ", client=",
                    expected.as_str(),
                ),
            ),
        );
    }
    match env.response {
        ResponsePayload::Success(payload) => Ok(*payload),
        ResponsePayload::Error(error) => Err(CommandError::from_payload(error)),
    }
}

} // verus!
