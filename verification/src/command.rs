//! The operator's commands and the control requests they become.

use vstd::prelude::*;

use crate::control_api::{EnableRequest, RequestCommand, RequestEnvelope, ServiceRequest};
use crate::error::CommandError;
use crate::model::{AsyncIoBackend, ChecksumMode, OutOfSpacePolicy, PersistenceMode,
    RecorderProfile, CONTROL_API_VERSION};
use crate::text::join4;

verus! {

/// What the operator asked for.
#[derive(Debug)]
pub enum OrchestratorAction {
    Serve,
    Enable(EnableOptions),
    Disable(ServiceOptions),
    Pause(ServiceOptions),
    Resume(ServiceOptions),
    Start(ServiceOptions),
    Stop(ServiceOptions),
    Status(ServiceOptions),
    List,
    Reconcile,
    DaemonStatus,
    Shutdown,
}

/// A command about one service.
#[derive(Debug)]
pub struct ServiceOptions {
    pub service: String,
}

/// The configuration given with `enable`.
#[derive(Debug)]
pub struct EnableOptions {
    pub service: String,
    pub instance: String,
    pub storage_path: String,
    pub metadata_log_path: String,
    pub profile: RecorderProfile,
    pub mode: PersistenceMode,
    pub cycle_time_ms: u64,
    pub flush_interval_ms: u64,
    pub max_disk_bytes: Option<u64>,
    pub async_io_backend: Option<AsyncIoBackend>,
    pub io_uring_queue_depth: Option<u32>,
    pub io_submit_batch_max: Option<u32>,
    pub io_cqe_batch_max: Option<u32>,
    pub io_uring_register_files: Option<bool>,
    pub checksum_mode: Option<ChecksumMode>,
    pub out_of_space_policy: Option<OutOfSpacePolicy>,
    pub metadata_log_roll_bytes: Option<u64>,
    pub metadata_log_max_bytes: Option<u64>,
}

/// Text of the refusal of a command line without a command.
pub open spec fn missing_action_message() -> Seq<char> {
    "a command is required (serve/enable/disable/pause/resume/start/stop/status/list/reconcile/daemon-status/shutdown)"@
}

/// Text of the refusal to send `serve` to a daemon.
pub open spec fn serve_not_sendable_message() -> Seq<char> {
    "internal error: serve cannot be sent over control API"@
}

/// A command line must name a command.
pub fn require_action(action: Option<&OrchestratorAction>) -> (r: Result<
    &OrchestratorAction,
    CommandError,
>)
    ensures
        action matches Some(a) ==> r == Ok::<&OrchestratorAction, CommandError>(a),
        action is None ==> (r matches Err(CommandError::InvalidInput(m)) && m@
            == missing_action_message()),
{
    match action {
        Some(a) => Ok(a),
        None => Err(
            CommandError::InvalidInput(
                String::from_str(
                    "a command is required (serve/enable/disable/pause/resume/start/stop/status/list/reconcile/daemon-status/shutdown)",
                ),
            ),
        ),
    }
}

/// The enable request carries every option as given.
pub open spec fn enable_request_of(o: EnableOptions, r: EnableRequest) -> bool {
    &&& r.service@ == o.service@
    &&& r.instance@ == o.instance@
    &&& r.storage_path@ == o.storage_path@
    &&& r.metadata_log_path@ == o.metadata_log_path@
    &&& r.profile == o.profile
    &&& r.mode == o.mode
    &&& r.cycle_time_ms == o.cycle_time_ms
    &&& r.flush_interval_ms == o.flush_interval_ms
    &&& r.max_disk_bytes == o.max_disk_bytes
    &&& r.async_io_backend == o.async_io_backend
    &&& r.io_uring_queue_depth == o.io_uring_queue_depth
    &&& r.io_submit_batch_max == o.io_submit_batch_max
    &&& r.io_cqe_batch_max == o.io_cqe_batch_max
    &&& r.io_uring_register_files == o.io_uring_register_files
    &&& r.checksum_mode == o.checksum_mode
    &&& r.out_of_space_policy == o.out_of_space_policy
    &&& r.metadata_log_roll_bytes == o.metadata_log_roll_bytes
    &&& r.metadata_log_max_bytes == o.metadata_log_max_bytes
}

/// The request a client command becomes.
pub open spec fn request_of(a: OrchestratorAction, c: RequestCommand) -> bool {
    match a {
        OrchestratorAction::Serve => false,
        OrchestratorAction::Enable(o) => c matches RequestCommand::Enable(r) && enable_request_of(
            o,
            r,
        ),
        OrchestratorAction::Disable(o) => c matches RequestCommand::Disable(r) && r.service@
            == o.service@,
        OrchestratorAction::Pause(o) => c matches RequestCommand::Pause(r) && r.service@
            == o.service@,
        OrchestratorAction::Resume(o) => c matches RequestCommand::Resume(r) && r.service@
            == o.service@,
        OrchestratorAction::Start(o) => c matches RequestCommand::Start(r) && r.service@
            == o.service@,
        OrchestratorAction::Stop(o) => c matches RequestCommand::Stop(r) && r.service@
            == o.service@,
        OrchestratorAction::Status(o) => c matches RequestCommand::Status(r) && r.service@
            == o.service@,
        OrchestratorAction::List => c is List,
        OrchestratorAction::Reconcile => c is Reconcile,
        OrchestratorAction::DaemonStatus => c is DaemonStatus,
        OrchestratorAction::Shutdown => c is Shutdown,
    }
}

fn service_request(o: &ServiceOptions) -> (r: ServiceRequest)
    ensures
        r.service@ == o.service@,
{
    ServiceRequest { service: o.service.clone() }
}

/// The control request for a client command, in the current API version.
/// `serve` is run, not sent, and is refused here.
pub fn request_from_action(action: &OrchestratorAction) -> (r: Result<RequestEnvelope, CommandError>)
    ensures
        action is Serve ==> (r matches Err(CommandError::InvalidInput(m)) && m@
            == serve_not_sendable_message()),
        !(action is Serve) ==> (r matches Ok(env) && env.version == CONTROL_API_VERSION
            && request_of(*action, env.command)),
{
    let command = match action {
        OrchestratorAction::Serve => {
            return Err(
                CommandError::InvalidInput(
                    String::from_str("internal error: serve cannot be sent over control API"),
                ),
            );
        },
        OrchestratorAction::Enable(o) => RequestCommand::Enable(
            EnableRequest {
                service: o.service.clone(),
                instance: o.instance.clone(),
                storage_path: o.storage_path.clone(),
                metadata_log_path: o.metadata_log_path.clone(),
                profile: o.profile,
                mode: o.mode,
                cycle_time_ms: o.cycle_time_ms,
                flush_interval_ms: o.flush_interval_ms,
                max_disk_bytes: o.max_disk_bytes,
                async_io_backend: o.async_io_backend,
                io_uring_queue_depth: o.io_uring_queue_depth,
                io_submit_batch_max: o.io_submit_batch_max,
                io_cqe_batch_max: o.io_cqe_batch_max,
                io_uring_register_files: o.io_uring_register_files,
                checksum_mode: o.checksum_mode,
                out_of_space_policy: o.out_of_space_policy,
                metadata_log_roll_bytes: o.metadata_log_roll_bytes,
                metadata_log_max_bytes: o.metadata_log_max_bytes,
            },
        ),
        OrchestratorAction::Disable(o) => RequestCommand::Disable(service_request(o)),
        OrchestratorAction::Pause(o) => RequestCommand::Pause(service_request(o)),
        OrchestratorAction::Resume(o) => RequestCommand::Resume(service_request(o)),
        OrchestratorAction::Start(o) => RequestCommand::Start(service_request(o)),
        OrchestratorAction::Stop(o) => RequestCommand::Stop(service_request(o)),
        OrchestratorAction::Status(o) => RequestCommand::Status(service_request(o)),
        OrchestratorAction::List => RequestCommand::List,
        OrchestratorAction::Reconcile => RequestCommand::Reconcile,
        OrchestratorAction::DaemonStatus => RequestCommand::DaemonStatus,
        OrchestratorAction::Shutdown => RequestCommand::Shutdown,
    };
    Ok(RequestEnvelope { version: CONTROL_API_VERSION, command })
}

/// Text of the failure to reach the daemon on `control_service`, with the
/// full error chain `cause`.
pub open spec fn unreachable_message(control_service: Seq<char>, cause: Seq<char>) -> Seq<char> {
    "orchestrator daemon is not reachable on control service '"@ + control_service + "': "@
        + cause
}

/// The failure a client reports when the daemon cannot be reached.
pub fn daemon_unreachable(control_service: &str, cause: &str) -> (e: CommandError)
    ensures
        e matches CommandError::NotAvailable(m) && m@ == unreachable_message(
            control_service@,
            cause@,
        ),
{
    CommandError::NotAvailable(
        join4(
            "orchestrator daemon is not reachable on control service '",
            control_service,
            "': ",
            cause,
        ),
    )
}

} // verus!
