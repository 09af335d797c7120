//! The data model: recorder settings, the persisted desired state with its
//! validation, live status and health of a service, and the per-service retry
//! bookkeeping.

use vstd::prelude::*;

use vstd::string::StringSliceAdditionalSpecFns;

use crate::name_map::NameMap;
use crate::text::{blank, is_blank, join3, join4, u64_text, decimal};

verus! {

/// Schema version of the persisted desired state.
pub const DESIRED_STATE_VERSION: u32 = 1;

/// Version of the control API envelopes.
pub const CONTROL_API_VERSION: u16 = 1;

/// Tuning profile a recorder starts with.
#[derive(Clone, Copy, Debug, PartialEq, Eq, Structural)]
pub enum RecorderProfile {
    Durable,
    Balanced,
    Throughput,
    Replay,
}

/// Name of a recorder profile on the recorder's command line.
pub open spec fn profile_text(p: RecorderProfile) -> Seq<char> {
    match p {
        RecorderProfile::Durable => "durable"@,
        RecorderProfile::Balanced => "balanced"@,
        RecorderProfile::Throughput => "throughput"@,
        RecorderProfile::Replay => "replay"@,
    }
}

impl RecorderProfile {
    pub fn as_str(self) -> (r: &'static str)
        ensures
            r@ == profile_text(self),
    {
        match self {
            RecorderProfile::Durable => "durable",
            RecorderProfile::Balanced => "balanced",
            RecorderProfile::Throughput => "throughput",
            RecorderProfile::Replay => "replay",
        }
    }
}

impl Default for RecorderProfile {
    fn default() -> (r: Self)
        ensures
            r == RecorderProfile::Balanced,
    {
        RecorderProfile::Balanced
    }
}

/// How a recorder persists what it records.
#[derive(Clone, Copy, Debug, PartialEq, Eq, Structural)]
pub enum PersistenceMode {
    Volatile,
    Async,
    Sync,
}

/// Name of a persistence mode on the recorder's command line.
pub open spec fn mode_text(m: PersistenceMode) -> Seq<char> {
    match m {
        PersistenceMode::Volatile => "volatile"@,
        PersistenceMode::Async => "async"@,
        PersistenceMode::Sync => "sync"@,
    }
}

impl PersistenceMode {
    pub fn as_str(self) -> (r: &'static str)
        ensures
            r@ == mode_text(self),
    {
        match self {
            PersistenceMode::Volatile => "volatile",
            PersistenceMode::Async => "async",
            PersistenceMode::Sync => "sync",
        }
    }
}

impl Default for PersistenceMode {
    fn default() -> (r: Self)
        ensures
            r == PersistenceMode::Async,
    {
        PersistenceMode::Async
    }
}

/// I/O backend a recorder writes through.
#[derive(Clone, Copy, Debug, PartialEq, Eq, Structural)]
pub enum AsyncIoBackend {
    Blocking,
    IoUringPreferred,
}

/// Name of an I/O backend on the recorder's command line.
pub open spec fn backend_text(b: AsyncIoBackend) -> Seq<char> {
    match b {
        AsyncIoBackend::Blocking => "blocking"@,
        AsyncIoBackend::IoUringPreferred => "io-uring-preferred"@,
    }
}

impl AsyncIoBackend {
    pub fn as_str(self) -> (r: &'static str)
        ensures
            r@ == backend_text(self),
    {
        match self {
            AsyncIoBackend::Blocking => "blocking",
            AsyncIoBackend::IoUringPreferred => "io-uring-preferred",
        }
    }
}

/// Checksum a recorder stores with its records.
#[derive(Clone, Copy, Debug, PartialEq, Eq, Structural)]
pub enum ChecksumMode {
    Crc32c,
}

/// Name of a checksum mode on the recorder's command line.
pub open spec fn checksum_text(c: ChecksumMode) -> Seq<char> {
    match c {
        ChecksumMode::Crc32c => "crc32c"@,
    }
}

impl ChecksumMode {
    pub fn as_str(self) -> (r: &'static str)
        ensures
            r@ == checksum_text(self),
    {
        match self {
            ChecksumMode::Crc32c => "crc32c",
        }
    }
}

/// What a recorder does when its storage is full.
#[derive(Clone, Copy, Debug, PartialEq, Eq, Structural)]
pub enum OutOfSpacePolicy {
    FailWriter,
}

/// Name of an out-of-space policy on the recorder's command line.
pub open spec fn policy_text(p: OutOfSpacePolicy) -> Seq<char> {
    match p {
        OutOfSpacePolicy::FailWriter => "fail-writer"@,
    }
}

impl OutOfSpacePolicy {
    pub fn as_str(self) -> (r: &'static str)
        ensures
            r@ == policy_text(self),
    {
        match self {
            OutOfSpacePolicy::FailWriter => "fail-writer",
        }
    }
}

/// Desired configuration of one recorded service.
#[derive(Debug)]
pub struct ServiceSpec {
    pub enabled: bool,
    pub paused: bool,
    pub instance: String,
    pub generation: u64,
    pub storage_path: String,
    pub metadata_log_path: String,
    pub profile: RecorderProfile,
    pub mode: PersistenceMode,
    pub cycle_time_ms: u64,
    pub flush_interval_ms: u64,
    pub max_disk_bytes: Option<u64>,
    pub async_io_backend: Option<AsyncIoBackend>,
    pub io_uring_queue_depth: Option<u32>,
    pub io_submit_batch_max: Option<u32>,
    pub io_cqe_batch_max: Option<u32>,
    pub io_uring_register_files: Option<bool>,
    pub checksum_mode: Option<ChecksumMode>,
    pub out_of_space_policy: Option<OutOfSpacePolicy>,
    pub metadata_log_roll_bytes: Option<u64>,
    pub metadata_log_max_bytes: Option<u64>,
}

/// A `ServiceSpec` with its texts taken as character sequences.
pub struct ServiceSpecView {
    pub enabled: bool,
    pub paused: bool,
    pub instance: Seq<char>,
    pub generation: u64,
    pub storage_path: Seq<char>,
    pub metadata_log_path: Seq<char>,
    pub profile: RecorderProfile,
    pub mode: PersistenceMode,
    pub cycle_time_ms: u64,
    pub flush_interval_ms: u64,
    pub max_disk_bytes: Option<u64>,
    pub async_io_backend: Option<AsyncIoBackend>,
    pub io_uring_queue_depth: Option<u32>,
    pub io_submit_batch_max: Option<u32>,
    pub io_cqe_batch_max: Option<u32>,
    pub io_uring_register_files: Option<bool>,
    pub checksum_mode: Option<ChecksumMode>,
    pub out_of_space_policy: Option<OutOfSpacePolicy>,
    pub metadata_log_roll_bytes: Option<u64>,
    pub metadata_log_max_bytes: Option<u64>,
}

impl View for ServiceSpec {
    type V = ServiceSpecView;

    open spec fn view(&self) -> ServiceSpecView {
        ServiceSpecView {
            enabled: self.enabled,
            paused: self.paused,
            instance: self.instance@,
            generation: self.generation,
            storage_path: self.storage_path@,
            metadata_log_path: self.metadata_log_path@,
            profile: self.profile,
            mode: self.mode,
            cycle_time_ms: self.cycle_time_ms,
            flush_interval_ms: self.flush_interval_ms,
            max_disk_bytes: self.max_disk_bytes,
            async_io_backend: self.async_io_backend,
            io_uring_queue_depth: self.io_uring_queue_depth,
            io_submit_batch_max: self.io_submit_batch_max,
            io_cqe_batch_max: self.io_cqe_batch_max,
            io_uring_register_files: self.io_uring_register_files,
            checksum_mode: self.checksum_mode,
            out_of_space_policy: self.out_of_space_policy,
            metadata_log_roll_bytes: self.metadata_log_roll_bytes,
            metadata_log_max_bytes: self.metadata_log_max_bytes,
        }
    }
}

/// Why a service specification is refused.
#[derive(Clone, Copy, Debug, PartialEq, Eq, Structural)]
pub enum SpecIssue {
    EmptyServiceName,
    EmptyInstance,
    ZeroGeneration,
    EmptyStoragePath,
    EmptyMetadataLogPath,
    ZeroCycleTime,
}

/// The first rule that the specification `s` of `service` breaks, checked in
/// this order: service name, instance, generation, storage path, metadata log
/// path, cycle time.
pub open spec fn spec_issue(service: Seq<char>, s: ServiceSpecView) -> Option<SpecIssue> {
    if is_blank(service) {
        Some(SpecIssue::EmptyServiceName)
    } else if is_blank(s.instance) {
        Some(SpecIssue::EmptyInstance)
    } else if s.generation == 0 {
        Some(SpecIssue::ZeroGeneration)
    } else if is_blank(s.storage_path) {
        Some(SpecIssue::EmptyStoragePath)
    } else if is_blank(s.metadata_log_path) {
        Some(SpecIssue::EmptyMetadataLogPath)
    } else if s.cycle_time_ms == 0 {
        Some(SpecIssue::ZeroCycleTime)
    } else {
        None
    }
}

/// Text of the refusal of the specification of `service` for `issue`.
pub open spec fn issue_message(issue: SpecIssue, service: Seq<char>) -> Seq<char> {
    match issue {
        SpecIssue::EmptyServiceName => "service name must not be empty"@,
        SpecIssue::EmptyInstance => "instance for service '"@ + service + "' must not be empty"@,
        SpecIssue::ZeroGeneration => "generation for service '"@ + service + "' must be > 0"@,
        SpecIssue::EmptyStoragePath => "storage_path for service '"@ + service
            + "' must not be empty"@,
        SpecIssue::EmptyMetadataLogPath => "metadata_log_path for service '"@ + service
            + "' must not be empty"@,
        SpecIssue::ZeroCycleTime => "cycle_time_ms for service '"@ + service + "' must be > 0"@,
    }
}

/// A refused service specification.
#[derive(Debug)]
pub struct SpecError {
    pub issue: SpecIssue,
    pub service: String,
}

impl SpecError {
    /// The text of the refusal.
    pub fn message(&self) -> (r: String)
        ensures
            r@ == issue_message(self.issue, self.service@),
    {
        let s = self.service.as_str();
        match self.issue {
            SpecIssue::EmptyServiceName => String::from_str("service name must not be empty"),
            SpecIssue::EmptyInstance => join3("instance for service '", s, "' must not be empty"),
            SpecIssue::ZeroGeneration => join3("generation for service '", s, "' must be > 0"),
            SpecIssue::EmptyStoragePath => join3(
                "storage_path for service '",
                s,
                "' must not be empty",
            ),
            SpecIssue::EmptyMetadataLogPath => join3(
                "metadata_log_path for service '",
                s,
                "' must not be empty",
            ),
            SpecIssue::ZeroCycleTime => join3("cycle_time_ms for service '", s, "' must be > 0"),
        }
    }
}

impl ServiceSpec {
    /// Check the specification of `service`: the service name, the instance,
    /// the storage path and the metadata log path must not be blank, the
    /// generation and the cycle time must be positive. The first rule broken
    /// is reported.
    pub fn validate(&self, service: &str) -> (r: Result<(), SpecError>)
        ensures
            spec_issue(service@, self@) is None ==> r is Ok,
            spec_issue(service@, self@) is Some ==> (r matches Err(e) && e.issue
                == spec_issue(service@, self@)->0 && e.service@ == service@),
    {
        let issue = if blank(service) {
            Some(SpecIssue::EmptyServiceName)
        } else if blank(self.instance.as_str()) {
            Some(SpecIssue::EmptyInstance)
        } else if self.generation == 0 {
            Some(SpecIssue::ZeroGeneration)
        } else if blank(self.storage_path.as_str()) {
            Some(SpecIssue::EmptyStoragePath)
        } else if blank(self.metadata_log_path.as_str()) {
            Some(SpecIssue::EmptyMetadataLogPath)
        } else if self.cycle_time_ms == 0 {
            Some(SpecIssue::ZeroCycleTime)
        } else {
            None
        };
        match issue {
            Some(issue) => Err(SpecError { issue, service: String::from_str(service) }),
            None => Ok(()),
        }
    }

    /// A copy of this specification.
    pub fn duplicate(&self) -> (r: ServiceSpec)
        ensures
            r@ == self@,
    {
        ServiceSpec {
            enabled: self.enabled,
            paused: self.paused,
            instance: self.instance.clone(),
            generation: self.generation,
            storage_path: self.storage_path.clone(),
            metadata_log_path: self.metadata_log_path.clone(),
            profile: self.profile,
            mode: self.mode,
            cycle_time_ms: self.cycle_time_ms,
            flush_interval_ms: self.flush_interval_ms,
            max_disk_bytes: self.max_disk_bytes,
            async_io_backend: self.async_io_backend,
            io_uring_queue_depth: self.io_uring_queue_depth,
            io_submit_batch_max: self.io_submit_batch_max,
            io_cqe_batch_max: self.io_cqe_batch_max,
            io_uring_register_files: self.io_uring_register_files,
            checksum_mode: self.checksum_mode,
            out_of_space_policy: self.out_of_space_policy,
            metadata_log_roll_bytes: self.metadata_log_roll_bytes,
            metadata_log_max_bytes: self.metadata_log_max_bytes,
        }
    }
}

/// Default instance name of a service that names none.
pub fn default_instance() -> (r: String)
    ensures
        r@ == "default"@,
{
    String::from_str("default")
}

/// Default generation of a service that names none.
pub fn default_generation() -> (r: u64)
    ensures
        r == 1,
{
    1
}

/// Default recorder cycle time in milliseconds.
pub fn default_cycle_time_ms() -> (r: u64)
    ensures
        r == 10,
{
    10
}

/// Default recorder flush interval in milliseconds.
pub fn default_flush_interval_ms() -> (r: u64)
    ensures
        r == 100,
{
    100
}

/// The persisted desired state: a schema version and the specification of
/// each service, in ascending name order.
pub struct DesiredState {
    pub version: u32,
    pub services: NameMap<ServiceSpec>,
}

/// Why a desired state is refused.
#[derive(Debug)]
pub enum StateError {
    UnsupportedVersion(u32),
    InvalidService(SpecError),
}

/// Text of the refusal of a desired state of schema `version`.
pub open spec fn version_message(version: u32) -> Seq<char> {
    "unsupported desired-state version "@ + decimal(version as nat) + ", expected "@ + decimal(
        DESIRED_STATE_VERSION as nat,
    )
}

impl StateError {
    /// The text of the refusal.
    pub fn message(&self) -> (r: String)
        ensures
            self matches StateError::UnsupportedVersion(v) ==> r@ == version_message(*v),
            self matches StateError::InvalidService(e) ==> r@ == issue_message(
                e.issue,
                e.service@,
            ),
    {
        match self {
            StateError::UnsupportedVersion(v) => {
                let found = u64_text(*v as u64);
                let expected = u64_text(DESIRED_STATE_VERSION as u64);
                join4(
                    "unsupported desired-state version ",
                    found.as_str(),
                    ", expected ",
                    expected.as_str(),
                )
            },
            StateError::InvalidService(e) => e.message(),
        }
    }
}

impl DesiredState {
    /// A desired state of the current schema version with no service.
    pub fn new() -> (r: DesiredState)
        ensures
            r.version == DESIRED_STATE_VERSION,
            r.services@ == Map::<Seq<char>, ServiceSpecView>::empty(),
            r.services.keys().len() == 0,
    {
        DesiredState { version: DESIRED_STATE_VERSION, services: NameMap::new() }
    }

    /// Whether every service specification passes its checks.
    pub open spec fn all_valid(&self) -> bool {
        forall|i: int|
            0 <= i < self.services.keys().len() ==> spec_issue(
                #[trigger] self.services.keys()[i],
                self.services.values()[i]@,
            ) is None
    }

    /// Check the whole state: the schema version must be the current one,
    /// then each service in name order; the first refusal is reported.
    pub fn validate(&self) -> (r: Result<(), StateError>)
        ensures
            self.version != DESIRED_STATE_VERSION ==> (r matches Err(
                StateError::UnsupportedVersion(v),
            ) && v == self.version),
            self.version == DESIRED_STATE_VERSION ==> (r is Ok <==> self.all_valid()),
            self.version == DESIRED_STATE_VERSION && r is Err ==> (r matches Err(
                StateError::InvalidService(e),
            ) && exists|i: int|
                0 <= i < self.services.keys().len() && self.services.keys()[i] == e.service@
                    && spec_issue(self.services.keys()[i], self.services.values()[i]@)
                    == Some(e.issue) && forall|j: int|
                    0 <= j < i ==> spec_issue(
                        #[trigger] self.services.keys()[j],
                        self.services.values()[j]@,
                    ) is None),
    {
        if self.version != DESIRED_STATE_VERSION {
            return Err(StateError::UnsupportedVersion(self.version));
        }
        let n = self.services.len();
        let mut i: usize = 0;
        while i < n
            invariant
                n == self.services.keys().len(),
                self.version == DESIRED_STATE_VERSION,
                i <= n,
                forall|j: int|
                    0 <= j < i ==> spec_issue(
                        #[trigger] self.services.keys()[j],
                        self.services.values()[j]@,
                    ) is None,
            decreases n - i,
        {
            let name = self.services.name_at(i);
            let spec = self.services.value_at(i);
            match spec.validate(name.as_str()) {
                Ok(()) => {},
                Err(e) => {
                    return Err(StateError::InvalidService(e));
                },
            }
            i = i + 1;
        }
        Ok(())
    }
}

/// Live status of a recorder as its control endpoint reports it.
#[derive(Debug)]
pub struct ServiceLiveStatus {
    pub available: bool,
    pub is_paused: Option<bool>,
    pub dropped_while_paused: Option<u64>,
    pub paused_since_ns: Option<u64>,
    pub committed_records: Option<u64>,
    pub payload_bytes_committed: Option<u64>,
    pub message: Option<String>,
}

/// A `ServiceLiveStatus` with its text taken as a character sequence.
pub struct ServiceLiveStatusView {
    pub available: bool,
    pub is_paused: Option<bool>,
    pub dropped_while_paused: Option<u64>,
    pub paused_since_ns: Option<u64>,
    pub committed_records: Option<u64>,
    pub payload_bytes_committed: Option<u64>,
    pub message: Option<Seq<char>>,
}

impl View for ServiceLiveStatus {
    type V = ServiceLiveStatusView;

    open spec fn view(&self) -> ServiceLiveStatusView {
        ServiceLiveStatusView {
            available: self.available,
            is_paused: self.is_paused,
            dropped_while_paused: self.dropped_while_paused,
            paused_since_ns: self.paused_since_ns,
            committed_records: self.committed_records,
            payload_bytes_committed: self.payload_bytes_committed,
            message: opt_text(self.message),
        }
    }
}

impl ServiceLiveStatus {
    /// A copy of this status.
    pub fn duplicate(&self) -> (r: ServiceLiveStatus)
        ensures
            r@ == self@,
    {
        ServiceLiveStatus {
            available: self.available,
            is_paused: self.is_paused,
            dropped_while_paused: self.dropped_while_paused,
            paused_since_ns: self.paused_since_ns,
            committed_records: self.committed_records,
            payload_bytes_committed: self.payload_bytes_committed,
            message: copy_opt_text(&self.message),
        }
    }
}

/// Identity of a recorder worker: service, instance and generation.
#[derive(Debug)]
pub struct ServiceIdentity {
    pub service: String,
    pub instance: String,
    pub generation: u64,
}

/// Health of a configured service as the status and list commands report it.
#[derive(Debug)]
pub struct ServiceHealth {
    pub identity: ServiceIdentity,
    pub live: ServiceLiveStatus,
    pub heartbeat_age_ms: Option<u64>,
    pub last_error: Option<String>,
    pub last_transition_reason: Option<String>,
    pub restart_attempts: u32,
    pub degraded: bool,
    pub next_retry_in_ms: Option<u64>,
}

/// Why the bookkeeping of a service last changed.
#[derive(Clone, Copy, Debug, PartialEq, Eq, Structural)]
pub enum TransitionReason {
    ServiceRecovered,
    SpawnedByReconcile,
    SpawnRetryWindowExhausted,
    SpawnFailedRetryScheduled,
    SpawnFailedDegraded,
    StoppedPaused,
    StoppedDisabled,
    RetryStateResetByCommand,
}

/// The reported name of a transition reason.
pub open spec fn reason_text(r: TransitionReason) -> Seq<char> {
    match r {
        TransitionReason::ServiceRecovered => "service_recovered"@,
        TransitionReason::SpawnedByReconcile => "spawned_by_reconcile"@,
        TransitionReason::SpawnRetryWindowExhausted => "spawn_retry_window_exhausted"@,
        TransitionReason::SpawnFailedRetryScheduled => "spawn_failed_retry_scheduled"@,
        TransitionReason::SpawnFailedDegraded => "spawn_failed_degraded"@,
        TransitionReason::StoppedPaused => "stopped_paused"@,
        TransitionReason::StoppedDisabled => "stopped_disabled"@,
        TransitionReason::RetryStateResetByCommand => "retry_state_reset_by_command"@,
    }
}

impl TransitionReason {
    pub fn as_str(self) -> (r: &'static str)
        ensures
            r@ == reason_text(self),
    {
        match self {
            TransitionReason::ServiceRecovered => "service_recovered",
            TransitionReason::SpawnedByReconcile => "spawned_by_reconcile",
            TransitionReason::SpawnRetryWindowExhausted => "spawn_retry_window_exhausted",
            TransitionReason::SpawnFailedRetryScheduled => "spawn_failed_retry_scheduled",
            TransitionReason::SpawnFailedDegraded => "spawn_failed_degraded",
            TransitionReason::StoppedPaused => "stopped_paused",
            TransitionReason::StoppedDisabled => "stopped_disabled",
            TransitionReason::RetryStateResetByCommand => "retry_state_reset_by_command",
        }
    }
}

/// Restart bookkeeping of one service. Instants are milliseconds on the
/// daemon's monotonic clock.
#[derive(Debug)]
pub struct RetryTracker {
    pub attempts: u32,
    pub degraded: bool,
    pub first_failure_at: Option<u64>,
    pub next_retry_at: Option<u64>,
    pub last_transition_reason: Option<TransitionReason>,
    pub last_error: Option<String>,
    pub last_heartbeat_at: Option<u64>,
}

/// A `RetryTracker` with its texts taken as character sequences.
pub struct RetryTrackerView {
    pub attempts: u32,
    pub degraded: bool,
    pub first_failure_at: Option<u64>,
    pub next_retry_at: Option<u64>,
    pub last_transition_reason: Option<TransitionReason>,
    pub last_error: Option<Seq<char>>,
    pub last_heartbeat_at: Option<u64>,
}

/// The view of an optional text.
pub open spec fn opt_text(s: Option<String>) -> Option<Seq<char>> {
    match s {
        Some(t) => Some(t@),
        None => None,
    }
}

/// A copy of an optional text.
pub fn copy_opt_text(s: &Option<String>) -> (r: Option<String>)
    ensures
        opt_text(r) == opt_text(*s),
{
    match s {
        Some(t) => Some(t.clone()),
        None => None,
    }
}

impl View for RetryTracker {
    type V = RetryTrackerView;

    open spec fn view(&self) -> RetryTrackerView {
        RetryTrackerView {
            attempts: self.attempts,
            degraded: self.degraded,
            first_failure_at: self.first_failure_at,
            next_retry_at: self.next_retry_at,
            last_transition_reason: self.last_transition_reason,
            last_error: opt_text(self.last_error),
            last_heartbeat_at: self.last_heartbeat_at,
        }
    }
}

/// The bookkeeping of a service nothing has happened to yet.
pub open spec fn fresh_tracker() -> RetryTrackerView {
    RetryTrackerView {
        attempts: 0,
        degraded: false,
        first_failure_at: None,
        next_retry_at: None,
        last_transition_reason: None,
        last_error: None,
        last_heartbeat_at: None,
    }
}

impl RetryTracker {
    /// No attempts, not degraded, nothing recorded.
    pub fn new() -> (r: RetryTracker)
        ensures
            r@ == fresh_tracker(),
    {
        RetryTracker {
            attempts: 0,
            degraded: false,
            first_failure_at: None,
            next_retry_at: None,
            last_transition_reason: None,
            last_error: None,
            last_heartbeat_at: None,
        }
    }

    /// A copy of this bookkeeping.
    pub fn duplicate(&self) -> (r: RetryTracker)
        ensures
            r@ == self@,
    {
        RetryTracker {
            attempts: self.attempts,
            degraded: self.degraded,
            first_failure_at: self.first_failure_at,
            next_retry_at: self.next_retry_at,
            last_transition_reason: self.last_transition_reason,
            last_error: copy_opt_text(&self.last_error),
            last_heartbeat_at: self.last_heartbeat_at,
        }
    }
}

/// FNV-1a offset basis.
pub const FNV_OFFSET: u64 = 0xcbf29ce484222325;

/// FNV-1a prime.
pub const FNV_PRIME: u64 = 0x100000001b3;

/// One FNV-1a step: mix in a byte, then multiply modulo 2^64.
pub open spec fn fnv_step(h: u64, b: u64) -> u64 {
    (h ^ b).wrapping_mul(FNV_PRIME)
}

/// FNV-1a over a byte sequence, from a given start.
pub open spec fn fnv_fold(h: u64, bytes: Seq<u8>) -> u64
    decreases bytes.len(),
{
    if bytes.len() == 0 {
        h
    } else {
        fnv_step(fnv_fold(h, bytes.drop_last()), bytes.last() as u64)
    }
}

/// The seed of the jitter of a retry delay: FNV-1a over the UTF-8 bytes of
/// the service name, followed by one more step that mixes in the attempt
/// number.
pub open spec fn jitter_seed_spec(service: Seq<u8>, attempts: u32) -> u64 {
    fnv_step(fnv_fold(FNV_OFFSET, service), attempts as u64)
}

/// Seed of the deterministic jitter of the retry delay for `service` at
/// attempt `attempts`.
pub fn jitter_seed(service: &str, attempts: u32) -> (r: u64)
    ensures
        r == jitter_seed_spec(service.spec_bytes(), attempts),
{
    let bytes = service.as_bytes();
    let mut hash: u64 = FNV_OFFSET;
    let mut i: usize = 0;
    while i < bytes.len()
        invariant
            bytes@ == service.spec_bytes(),
            i <= bytes@.len(),
            hash == fnv_fold(FNV_OFFSET, bytes@.take(i as int)),
        decreases bytes@.len() - i,
    {
        proof {
            assert(bytes@.take(i + 1).drop_last() =~= bytes@.take(i as int));
        }
        hash = (hash ^ (bytes[i] as u64)).wrapping_mul(FNV_PRIME);
        i = i + 1;
    }
    proof {
        assert(bytes@.take(i as int) =~= bytes@);
    }
    (hash ^ (attempts as u64)).wrapping_mul(FNV_PRIME)
}

} // verus!
