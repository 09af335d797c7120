//! The orchestrator: desired intent per service, the lifecycle commands that
//! change it, and the decisions of the reconcile loop with bounded retries.
//!
//! Everything here is a decision on values. Persisting the state, probing
//! recorders through the control binary, spawning recorders and reading the
//! clock are done by the daemon around it, which hands in what it observed.

use vstd::prelude::*;

use crate::control_api::{CommandResponse, EnableRequest, EnableRequestView, ListEntry};
use crate::error::CommandError;
use crate::model::{copy_opt_text, fresh_tracker, opt_text, spec_issue, issue_message,
    AsyncIoBackend, ChecksumMode, DesiredState, OutOfSpacePolicy, RetryTracker, RetryTrackerView,
    ServiceHealth, ServiceIdentity, ServiceLiveStatus, ServiceSpec, ServiceSpecView,
    ServiceLiveStatusView, TransitionReason, reason_text};
use crate::name_map::NameMap;
use crate::text::{blank, is_blank, join3};

verus! {

/// Text of the refusal of a blank service name.
pub open spec fn empty_service_message() -> Seq<char> {
    "--service must not be empty"@
}

/// Text of the refusal of a service that is not configured.
pub open spec fn unknown_service_message(service: Seq<char>) -> Seq<char> {
    "unknown service '"@ + service + "'"@
}

/// A service name must not be blank.
pub fn ensure_service(service: &str) -> (r: Result<(), CommandError>)
    ensures
        !is_blank(service@) ==> r is Ok,
        is_blank(service@) ==> (r matches Err(CommandError::InvalidInput(m)) && m@
            == empty_service_message()),
{
    if blank(service) {
        return Err(CommandError::InvalidInput(String::from_str("--service must not be empty")));
    }
    Ok(())
}

/// The specification an enable request asks for, before the generation is
/// settled: enabled, not paused, generation 1.
pub open spec fn requested_spec(r: EnableRequestView) -> ServiceSpecView {
    ServiceSpecView {
        enabled: true,
        paused: false,
        instance: r.instance,
        generation: 1,
        storage_path: r.storage_path,
        metadata_log_path: r.metadata_log_path,
        profile: r.profile,
        mode: r.mode,
        cycle_time_ms: r.cycle_time_ms,
        flush_interval_ms: r.flush_interval_ms,
        max_disk_bytes: r.max_disk_bytes,
        async_io_backend: r.async_io_backend,
        io_uring_queue_depth: r.io_uring_queue_depth,
        io_submit_batch_max: r.io_submit_batch_max,
        io_cqe_batch_max: r.io_cqe_batch_max,
        io_uring_register_files: r.io_uring_register_files,
        checksum_mode: r.checksum_mode,
        out_of_space_policy: r.out_of_space_policy,
        metadata_log_roll_bytes: r.metadata_log_roll_bytes,
        metadata_log_max_bytes: r.metadata_log_max_bytes,
    }
}

/// `s` with the given intent flags.
pub open spec fn with_flags(s: ServiceSpecView, enabled: bool, paused: bool) -> ServiceSpecView {
    ServiceSpecView { enabled, paused, ..s }
}

/// `s` with the given generation.
pub open spec fn with_generation(s: ServiceSpecView, generation: u64) -> ServiceSpecView {
    ServiceSpecView { generation, ..s }
}

/// The generation after a change: one more, saturating at the maximum.
pub open spec fn next_generation(g: u64) -> u64 {
    if g == u64::MAX {
        g
    } else {
        (g + 1) as u64
    }
}

/// What enable stores for the request `r`, and whether that changes the
/// configuration. A service seen before keeps its generation when the request
/// asks for what it already has (apart from the intent flags); otherwise its
/// generation goes up by one. A new service starts at generation 1.
pub open spec fn enable_target(services: Map<Seq<char>, ServiceSpecView>, r: EnableRequestView) -> (
    ServiceSpecView,
    bool,
) {
    let fresh = requested_spec(r);
    if services.contains_key(r.service) {
        let old = services[r.service];
        if with_flags(old, true, false) == with_generation(fresh, old.generation) {
            (with_generation(fresh, old.generation), false)
        } else {
            (with_generation(fresh, next_generation(old.generation)), true)
        }
    } else {
        (fresh, true)
    }
}

/// What a lifecycle command still has to report once the daemon has
/// persisted the new state and reconciled.
#[derive(Debug)]
pub enum PendingResponse {
    Enable { service: String, changed: bool, generation: u64 },
    Disable { service: String, changed: bool },
    Pause { service: String, changed: bool },
    Resume { service: String, changed: bool },
    Start { service: String, changed: bool },
}

/// The names a reconcile pass started, stopped, found running or found
/// degraded, in the order it met them.
#[derive(Debug)]
pub struct ReconcileOutcome {
    pub started_services: Vec<String>,
    pub stopped_services: Vec<String>,
    pub already_running_services: Vec<String>,
    pub degraded_services: Vec<String>,
}

/// The texts of a list of names.
pub open spec fn names(v: Seq<String>) -> Seq<Seq<char>> {
    v.map_values(|s: String| s@)
}

/// Whether `v` holds `name`.
pub fn lists(v: &Vec<String>, name: &String) -> (b: bool)
    ensures
        b == names(v@).contains(name@),
{
    let mut i: usize = 0;
    while i < v.len()
        invariant
            i <= v@.len(),
            forall|j: int| 0 <= j < i ==> v@[j]@ != name@,
        decreases v@.len() - i,
    {
        if v[i] == *name {
            assert(names(v@)[i as int] == name@);
            return true;
        }
        i = i + 1;
    }
    proof {
        if names(v@).contains(name@) {
            let j = choose|j: int| 0 <= j < names(v@).len() && names(v@)[j] == name@;
            assert(v@[j]@ == name@);
        }
    }
    false
}

impl ReconcileOutcome {
    /// Nothing started, stopped, running or degraded yet.
    pub fn new() -> (r: ReconcileOutcome)
        ensures
            r.started_services@.len() == 0,
            r.stopped_services@.len() == 0,
            r.already_running_services@.len() == 0,
            r.degraded_services@.len() == 0,
    {
        ReconcileOutcome {
            started_services: Vec::new(),
            stopped_services: Vec::new(),
            already_running_services: Vec::new(),
            degraded_services: Vec::new(),
        }
    }
}

impl PendingResponse {
    /// Whether the command clears the retry bookkeeping of its service:
    /// enable, resume and start do, disable and pause do not.
    pub fn resets_retry(&self) -> (b: bool)
        ensures
            b == (self is Enable || self is Resume || self is Start),
    {
        match self {
            PendingResponse::Enable { .. } => true,
            PendingResponse::Resume { .. } => true,
            PendingResponse::Start { .. } => true,
            _ => false,
        }
    }

    /// The service the command is about.
    pub fn service(&self) -> (r: &String)
        ensures
            *r == match *self {
                PendingResponse::Enable { service, .. } => service,
                PendingResponse::Disable { service, .. } => service,
                PendingResponse::Pause { service, .. } => service,
                PendingResponse::Resume { service, .. } => service,
                PendingResponse::Start { service, .. } => service,
            },
    {
        match self {
            PendingResponse::Enable { service, .. } => service,
            PendingResponse::Disable { service, .. } => service,
            PendingResponse::Pause { service, .. } => service,
            PendingResponse::Resume { service, .. } => service,
            PendingResponse::Start { service, .. } => service,
        }
    }

    /// The answer, once the reconcile that followed the command is known:
    /// enable, resume and start report whether that pass started the service,
    /// disable and pause whether it stopped it.
    pub fn complete(self, outcome: &ReconcileOutcome) -> (r: CommandResponse)
        ensures
            match self {
                PendingResponse::Enable { service, changed, generation } => r
                    == CommandResponse::Enable {
                    service,
                    changed,
                    generation,
                    started: names(outcome.started_services@).contains(service@),
                },
                PendingResponse::Disable { service, changed } => r == CommandResponse::Disable {
                    service,
                    changed,
                    stop_requested: names(outcome.stopped_services@).contains(service@),
                },
                PendingResponse::Pause { service, changed } => r == CommandResponse::Pause {
                    service,
                    changed,
                    stop_requested: names(outcome.stopped_services@).contains(service@),
                },
                PendingResponse::Resume { service, changed } => r == CommandResponse::Resume {
                    service,
                    changed,
                    started: names(outcome.started_services@).contains(service@),
                },
                PendingResponse::Start { service, changed } => r == CommandResponse::Start {
                    service,
                    changed,
                    started: names(outcome.started_services@).contains(service@),
                },
            },
    {
        match self {
            PendingResponse::Enable { service, changed, generation } => {
                let started = lists(&outcome.started_services, &service);
                CommandResponse::Enable { service, changed, generation, started }
            },
            PendingResponse::Disable { service, changed } => {
                let stop_requested = lists(&outcome.stopped_services, &service);
                CommandResponse::Disable { service, changed, stop_requested }
            },
            PendingResponse::Pause { service, changed } => {
                let stop_requested = lists(&outcome.stopped_services, &service);
                CommandResponse::Pause { service, changed, stop_requested }
            },
            PendingResponse::Resume { service, changed } => {
                let started = lists(&outcome.started_services, &service);
                CommandResponse::Resume { service, changed, started }
            },
            PendingResponse::Start { service, changed } => {
                let started = lists(&outcome.started_services, &service);
                CommandResponse::Start { service, changed, started }
            },
        }
    }
}

fn same_u64(a: Option<u64>, b: Option<u64>) -> (r: bool)
    ensures
        r == (a == b),
{
    match (a, b) {
        (Some(x), Some(y)) => x == y,
        (None, None) => true,
        _ => false,
    }
}

fn same_u32(a: Option<u32>, b: Option<u32>) -> (r: bool)
    ensures
        r == (a == b),
{
    match (a, b) {
        (Some(x), Some(y)) => x == y,
        (None, None) => true,
        _ => false,
    }
}

fn same_bool(a: Option<bool>, b: Option<bool>) -> (r: bool)
    ensures
        r == (a == b),
{
    match (a, b) {
        (Some(x), Some(y)) => x == y,
        (None, None) => true,
        _ => false,
    }
}

fn same_backend(a: Option<AsyncIoBackend>, b: Option<AsyncIoBackend>) -> (r: bool)
    ensures
        r == (a == b),
{
    match (a, b) {
        (Some(x), Some(y)) => x == y,
        (None, None) => true,
        _ => false,
    }
}

fn same_checksum(a: Option<ChecksumMode>, b: Option<ChecksumMode>) -> (r: bool)
    ensures
        r == (a == b),
{
    match (a, b) {
        (Some(x), Some(y)) => x == y,
        (None, None) => true,
        _ => false,
    }
}

fn same_policy(a: Option<OutOfSpacePolicy>, b: Option<OutOfSpacePolicy>) -> (r: bool)
    ensures
        r == (a == b),
{
    match (a, b) {
        (Some(x), Some(y)) => x == y,
        (None, None) => true,
        _ => false,
    }
}

/// Whether two specifications say the same.
pub fn same_spec(a: &ServiceSpec, b: &ServiceSpec) -> (r: bool)
    ensures
        r == (a@ == b@),
{
    a.enabled == b.enabled && a.paused == b.paused && a.instance == b.instance && a.generation
        == b.generation && a.storage_path == b.storage_path && a.metadata_log_path
        == b.metadata_log_path && a.profile == b.profile && a.mode == b.mode && a.cycle_time_ms
        == b.cycle_time_ms && a.flush_interval_ms == b.flush_interval_ms && same_u64(
        a.max_disk_bytes,
        b.max_disk_bytes,
    ) && same_backend(a.async_io_backend, b.async_io_backend) && same_u32(
        a.io_uring_queue_depth,
        b.io_uring_queue_depth,
    ) && same_u32(a.io_submit_batch_max, b.io_submit_batch_max) && same_u32(
        a.io_cqe_batch_max,
        b.io_cqe_batch_max,
    ) && same_bool(a.io_uring_register_files, b.io_uring_register_files) && same_checksum(
        a.checksum_mode,
        b.checksum_mode,
    ) && same_policy(a.out_of_space_policy, b.out_of_space_policy) && same_u64(
        a.metadata_log_roll_bytes,
        b.metadata_log_roll_bytes,
    ) && same_u64(a.metadata_log_max_bytes, b.metadata_log_max_bytes)
}

/// The daemon's decision state: the desired state, the retry bookkeeping of
/// each service that has been looked at, and whether a shutdown was asked for.
pub struct Orchestrator {
    pub state: DesiredState,
    pub retry: NameMap<RetryTracker>,
    pub should_shutdown: bool,
}

impl Orchestrator {
    /// The desired specification of each service.
    pub open spec fn services(&self) -> Map<Seq<char>, ServiceSpecView> {
        self.state.services@
    }

    /// The retry bookkeeping of each service looked at so far.
    pub open spec fn trackers(&self) -> Map<Seq<char>, RetryTrackerView> {
        self.retry@
    }

    /// An orchestrator over `state` with no retry bookkeeping yet.
    pub fn new(state: DesiredState) -> (r: Orchestrator)
        ensures
            r.state == state,
            r.trackers() == Map::<Seq<char>, RetryTrackerView>::empty(),
            !r.should_shutdown,
    {
        Orchestrator { state, retry: NameMap::new(), should_shutdown: false }
    }

    /// Number of configured services.
    pub fn service_count(&self) -> (n: usize)
        ensures
            n == self.state.services.keys().len(),
    {
        self.state.services.len()
    }

    /// Name of the `i`-th configured service in ascending name order.
    pub fn service_name(&self, i: usize) -> (r: &String)
        requires
            i < self.state.services.keys().len(),
        ensures
            r@ == self.state.services.keys()[i as int],
    {
        self.state.services.name_at(i)
    }

    /// Specification of the `i`-th configured service.
    pub fn service_spec(&self, i: usize) -> (r: &ServiceSpec)
        requires
            i < self.state.services.keys().len(),
        ensures
            *r == self.state.services.values()[i as int],
    {
        self.state.services.value_at(i)
    }

    fn set_flags(&mut self, i: usize, enabled: bool, paused: bool)
        requires
            i < old(self).state.services.keys().len(),
        ensures
            final(self).services() == old(self).services().insert(
                old(self).state.services.keys()[i as int],
                with_flags(old(self).state.services.values()[i as int]@, enabled, paused),
            ),
            final(self).state.services.keys() == old(self).state.services.keys(),
            final(self).state.version == old(self).state.version,
            final(self).retry == old(self).retry,
            final(self).should_shutdown == old(self).should_shutdown,
    {
        let mut spec = self.state.services.value_at(i).duplicate();
        spec.enabled = enabled;
        spec.paused = paused;
        self.state.services.set_at(i, spec);
    }

    /// Record the intent to run `req.service` with the requested
    /// configuration: enabled and not paused. The generation stays when the
    /// configuration is the one already stored, and goes up by one when it
    /// changes. A blank service name, or a configuration that does not pass
    /// its checks, is refused and leaves everything as it was.
    pub fn enable(&mut self, req: EnableRequest) -> (r: Result<PendingResponse, CommandError>)
        ensures
            final(self).state.version == old(self).state.version,
            final(self).retry == old(self).retry,
            final(self).should_shutdown == old(self).should_shutdown,
            is_blank(req@.service) ==> (r matches Err(CommandError::InvalidInput(m)) && m@
                == empty_service_message()),
            !is_blank(req@.service) && spec_issue(
                req@.service,
                enable_target(old(self).services(), req@).0,
            ) is Some ==> (r matches Err(CommandError::InvalidInput(m)) && m@ == issue_message(
                spec_issue(req@.service, enable_target(old(self).services(), req@).0)->0,
                req@.service,
            )),
            r is Err ==> final(self).services() == old(self).services()
                && final(self).state.services.keys() == old(self).state.services.keys(),
            r is Ok <==> (!is_blank(req@.service) && spec_issue(
                req@.service,
                enable_target(old(self).services(), req@).0,
            ) is None),
            r is Ok ==> (r matches Ok(PendingResponse::Enable { service, changed, generation })
                && service@ == req@.service && changed == enable_target(
                old(self).services(),
                req@,
            ).1 && generation == enable_target(old(self).services(), req@).0.generation
                && final(self).services() == old(self).services().insert(
                req@.service,
                enable_target(old(self).services(), req@).0,
            )),
    {
        if blank(req.service.as_str()) {
            return Err(CommandError::InvalidInput(String::from_str("--service must not be empty")));
        }
        let ghost rv = req@;
        let service = req.service;
        let mut spec = ServiceSpec {
            enabled: true,
            paused: false,
            instance: req.instance,
            generation: 1,
            storage_path: req.storage_path,
            metadata_log_path: req.metadata_log_path,
            profile: req.profile,
            mode: req.mode,
            cycle_time_ms: req.cycle_time_ms,
            flush_interval_ms: req.flush_interval_ms,
            max_disk_bytes: req.max_disk_bytes,
            async_io_backend: req.async_io_backend,
            io_uring_queue_depth: req.io_uring_queue_depth,
            io_submit_batch_max: req.io_submit_batch_max,
            io_cqe_batch_max: req.io_cqe_batch_max,
            io_uring_register_files: req.io_uring_register_files,
            checksum_mode: req.checksum_mode,
            out_of_space_policy: req.out_of_space_policy,
            metadata_log_roll_bytes: req.metadata_log_roll_bytes,
            metadata_log_max_bytes: req.metadata_log_max_bytes,
        };
        assert(spec@ == requested_spec(rv));
        let changed = match self.state.services.get(&service) {
            Some(old) => {
                let mut old_cmp = old.duplicate();
                old_cmp.enabled = true;
                old_cmp.paused = false;
                spec.generation = old.generation;
                if same_spec(&old_cmp, &spec) {
                    false
                } else {
                    spec.generation =
                        if old.generation == u64::MAX {
                            old.generation
                        } else {
                            old.generation + 1
                        };
                    true
                }
            },
            None => true,
        };
        assert(spec@ == enable_target(self.services(), rv).0);
        assert(changed == enable_target(self.services(), rv).1);
        match spec.validate(service.as_str()) {
            Ok(()) => {},
            Err(e) => {
                return Err(CommandError::InvalidInput(e.message()));
            },
        }
        let generation = spec.generation;
        let key = service.clone();
        self.state.services.insert(key, spec);
        Ok(PendingResponse::Enable { service, changed, generation })
    }

    /// Clear the intent to run `service` (and its pause). Disabling a
    /// service that is not configured, or already disabled, changes nothing.
    pub fn disable(&mut self, service: &String) -> (r: Result<PendingResponse, CommandError>)
        ensures
            final(self).state.services.keys() == old(self).state.services.keys(),
            final(self).state.version == old(self).state.version,
            final(self).retry == old(self).retry,
            final(self).should_shutdown == old(self).should_shutdown,
            is_blank(service@) ==> (r matches Err(CommandError::InvalidInput(m)) && m@
                == empty_service_message() && final(self).services() == old(self).services()),
            !is_blank(service@) ==> (r matches Ok(PendingResponse::Disable { service: s, changed })
                && s@ == service@ && final(self).services() == disable_target(
                old(self).services(),
                service@,
            ).0 && changed == disable_target(old(self).services(), service@).1),
    {
        ensure_service(service.as_str())?;
        let changed = match self.state.services.find(service) {
            Some(i) => {
                let was_enabled = self.state.services.value_at(i).enabled;
                proof {
                    use_type_invariant(&self.state.services);
                    self.state.services.lemma_position(i as int);
                }
                self.set_flags(i, false, false);
                was_enabled
            },
            None => {
                assert(disable_target(self.services(), service@).0 =~= self.services());
                false
            },
        };
        Ok(PendingResponse::Disable { service: service.clone(), changed })
    }

    /// Find a configured service for pause, resume and start.
    fn configured(&self, service: &String) -> (r: Result<usize, CommandError>)
        ensures
            is_blank(service@) ==> (r matches Err(CommandError::InvalidInput(m)) && m@
                == empty_service_message()),
            !is_blank(service@) && !self.services().contains_key(service@) ==> (r matches Err(
                CommandError::InvalidInput(m),
            ) && m@ == unknown_service_message(service@)),
            !is_blank(service@) && self.services().contains_key(service@) ==> (r matches Ok(i)
                && i < self.state.services.keys().len() && self.state.services.keys()[i as int]
                == service@ && self.services()[service@] == self.state.services.values()[i as int]@),
    {
        ensure_service(service.as_str())?;
        match self.state.services.find(service) {
            Some(i) => {
                proof {
                    use_type_invariant(&self.state.services);
                    self.state.services.lemma_position(i as int);
                }
                Ok(i)
            },
            None => Err(
                CommandError::InvalidInput(join3("unknown service '", service.as_str(), "'")),
            ),
        }
    }

    /// Keep the intent but gate the runtime of `service`.
    pub fn pause(&mut self, service: &String) -> (r: Result<PendingResponse, CommandError>)
        ensures
            final(self).state.services.keys() == old(self).state.services.keys(),
            final(self).state.version == old(self).state.version,
            final(self).retry == old(self).retry,
            final(self).should_shutdown == old(self).should_shutdown,
            gated_outcome(
                old(self).services(),
                final(self).services(),
                service@,
                r,
                Flag::Paused,
            ),
    {
        let i = self.configured(service)?;
        let spec = self.state.services.value_at(i);
        let changed = !spec.paused;
        let enabled = spec.enabled;
        self.set_flags(i, enabled, true);
        Ok(PendingResponse::Pause { service: service.clone(), changed })
    }

    /// Lift the runtime gate of `service`.
    pub fn resume(&mut self, service: &String) -> (r: Result<PendingResponse, CommandError>)
        ensures
            final(self).state.services.keys() == old(self).state.services.keys(),
            final(self).state.version == old(self).state.version,
            final(self).retry == old(self).retry,
            final(self).should_shutdown == old(self).should_shutdown,
            gated_outcome(
                old(self).services(),
                final(self).services(),
                service@,
                r,
                Flag::Resumed,
            ),
    {
        let i = self.configured(service)?;
        let spec = self.state.services.value_at(i);
        let changed = spec.paused;
        let enabled = spec.enabled;
        self.set_flags(i, enabled, false);
        Ok(PendingResponse::Resume { service: service.clone(), changed })
    }

    /// Force `service` to be enabled and not paused.
    pub fn start(&mut self, service: &String) -> (r: Result<PendingResponse, CommandError>)
        ensures
            final(self).state.services.keys() == old(self).state.services.keys(),
            final(self).state.version == old(self).state.version,
            final(self).retry == old(self).retry,
            final(self).should_shutdown == old(self).should_shutdown,
            gated_outcome(
                old(self).services(),
                final(self).services(),
                service@,
                r,
                Flag::Started,
            ),
    {
        let i = self.configured(service)?;
        let spec = self.state.services.value_at(i);
        let changed = !spec.enabled || spec.paused;
        self.set_flags(i, true, false);
        Ok(PendingResponse::Start { service: service.clone(), changed })
    }
}

/// The state after disable and whether it changed anything: a configured
/// service loses its intent and its pause; an unknown one changes nothing.
pub open spec fn disable_target(services: Map<Seq<char>, ServiceSpecView>, service: Seq<char>) -> (
    Map<Seq<char>, ServiceSpecView>,
    bool,
) {
    if services.contains_key(service) {
        (
            services.insert(service, with_flags(services[service], false, false)),
            services[service].enabled,
        )
    } else {
        (services, false)
    }
}

/// The three commands that act on a configured service only.
#[derive(Clone, Copy, Debug, PartialEq, Eq, Structural)]
pub enum Flag {
    Paused,
    Resumed,
    Started,
}

/// The specification of a configured service after pause, resume or start.
pub open spec fn flagged(s: ServiceSpecView, f: Flag) -> ServiceSpecView {
    match f {
        Flag::Paused => with_flags(s, s.enabled, true),
        Flag::Resumed => with_flags(s, s.enabled, false),
        Flag::Started => with_flags(s, true, false),
    }
}

/// Whether pause, resume or start changes the specification `s`.
pub open spec fn flag_changes(s: ServiceSpecView, f: Flag) -> bool {
    match f {
        Flag::Paused => !s.paused,
        Flag::Resumed => s.paused,
        Flag::Started => !s.enabled || s.paused,
    }
}

/// The pending answer a flag command gives for `service` with `changed`.
pub open spec fn flag_response(p: PendingResponse, f: Flag, service: Seq<char>, changed: bool) -> bool {
    match f {
        Flag::Paused => p matches PendingResponse::Pause { service: s, changed: c } && s@ == service
            && c == changed,
        Flag::Resumed => p matches PendingResponse::Resume { service: s, changed: c } && s@
            == service && c == changed,
        Flag::Started => p matches PendingResponse::Start { service: s, changed: c } && s@
            == service && c == changed,
    }
}

/// The outcome of pause, resume or start on `service`: a blank name and an
/// unknown service are refused with nothing changed; a configured service
/// gets its new flags and the answer says whether they changed.
pub open spec fn gated_outcome(
    before: Map<Seq<char>, ServiceSpecView>,
    after: Map<Seq<char>, ServiceSpecView>,
    service: Seq<char>,
    r: Result<PendingResponse, CommandError>,
    f: Flag,
) -> bool {
    if is_blank(service) {
        r matches Err(CommandError::InvalidInput(m)) && m@ == empty_service_message() && after
            == before
    } else if !before.contains_key(service) {
        r matches Err(CommandError::InvalidInput(m)) && m@ == unknown_service_message(service)
            && after == before
    } else {
        r is Ok && flag_response(r->Ok_0, f, service, flag_changes(before[service], f)) && after
            == before.insert(service, flagged(before[service], f))
    }
}


/// The bookkeeping of `k`, or fresh bookkeeping when `k` has none yet.
pub open spec fn tracker_of(trackers: Map<Seq<char>, RetryTrackerView>, k: Seq<char>) -> RetryTrackerView {
    if trackers.contains_key(k) {
        trackers[k]
    } else {
        fresh_tracker()
    }
}

/// What a liveness probe teaches: a live recorder gives a heartbeat and
/// clears the last error; a dead one with a message leaves that message as
/// the last error.
pub open spec fn heartbeat_seen(
    t: RetryTrackerView,
    available: bool,
    message: Option<Seq<char>>,
    now: u64,
) -> RetryTrackerView {
    if available {
        RetryTrackerView { last_heartbeat_at: Some(now), last_error: None, ..t }
    } else if message is Some {
        RetryTrackerView { last_error: message, ..t }
    } else {
        t
    }
}

/// What reconcile learns from a probe: as `heartbeat_seen`, and a live
/// recorder that had attempts or was degraded counts as recovered, with its
/// retry state cleared.
pub open spec fn observed(
    t: RetryTrackerView,
    available: bool,
    message: Option<Seq<char>>,
    now: u64,
) -> RetryTrackerView {
    let h = heartbeat_seen(t, available, message, now);
    if available && (t.attempts > 0 || t.degraded) {
        RetryTrackerView {
            attempts: 0,
            degraded: false,
            first_failure_at: None,
            next_retry_at: None,
            last_transition_reason: Some(TransitionReason::ServiceRecovered),
            ..h
        }
    } else {
        h
    }
}

/// What reconcile does about one service.
#[derive(Clone, Copy, Debug, PartialEq, Eq, Structural)]
pub enum ReconcileAction {
    /// Wanted and live: nothing to do.
    AlreadyRunning,
    /// Wanted, not live, and out of retries: nothing to do until a command
    /// resets it or it recovers.
    Degraded,
    /// Wanted, not live, and the next retry is not due yet.
    Waiting,
    /// Wanted, not live, retry due: start a recorder.
    Spawn,
    /// Not wanted (disabled or paused) but live: stop it.
    Stop,
    /// Not wanted and not live.
    Idle,
}

/// The decision for a service with specification `s` and (already updated)
/// bookkeeping `t` whose recorder is live or not at `now`.
pub open spec fn decide(s: ServiceSpecView, t: RetryTrackerView, available: bool, now: u64) -> ReconcileAction {
    if s.enabled && !s.paused {
        if available {
            ReconcileAction::AlreadyRunning
        } else if t.degraded {
            ReconcileAction::Degraded
        } else if t.next_retry_at is Some && now < t.next_retry_at->0 {
            ReconcileAction::Waiting
        } else {
            ReconcileAction::Spawn
        }
    } else if available {
        ReconcileAction::Stop
    } else {
        ReconcileAction::Idle
    }
}

/// `a + 1`, saturating.
pub open spec fn increment(a: u32) -> u32 {
    if a == u32::MAX {
        a
    } else {
        (a + 1) as u32
    }
}

/// `a + b`, saturating.
pub open spec fn plus(a: u64, b: u64) -> u64 {
    if a + b > u64::MAX {
        u64::MAX
    } else {
        (a + b) as u64
    }
}

/// `a - b`, saturating at zero.
pub open spec fn minus(a: u64, b: u64) -> u64 {
    if a >= b {
        (a - b) as u64
    } else {
        0
    }
}

/// The instant the retry window of `t` opened, or `now` for an attempt that
/// opens it.
pub open spec fn window_start(t: RetryTrackerView, now: u64) -> u64 {
    if t.first_failure_at is Some {
        t.first_failure_at->0
    } else {
        now
    }
}

/// Whether an attempt at `now` still falls in the retry window.
pub open spec fn in_window(t: RetryTrackerView, now: u64, window_ms: u64) -> bool {
    minus(now, window_start(t, now)) <= window_ms
}

/// How an attempt to start a recorder ended.
#[derive(Clone, Copy, Debug, PartialEq, Eq, Structural)]
pub enum SpawnVerdict {
    /// Started within the retry window.
    Started,
    /// Failed within the retry window; another attempt is scheduled.
    RetryScheduled,
    /// Outside the retry window: the service is degraded.
    Degraded,
}

/// The verdict of an attempt that `failed` or not, for bookkeeping `t`.
pub open spec fn spawn_verdict(t: RetryTrackerView, now: u64, window_ms: u64, failed: bool) -> SpawnVerdict {
    if !in_window(t, now, window_ms) {
        SpawnVerdict::Degraded
    } else if failed {
        SpawnVerdict::RetryScheduled
    } else {
        SpawnVerdict::Started
    }
}

/// The bookkeeping after an attempt at `now` to start a recorder, which
/// failed with `failure` or succeeded (`None`). Every attempt counts; the
/// first one opens the retry window. Within the window the next retry is
/// `delay_ms` away; past it the service becomes degraded.
pub open spec fn spawn_recorded(
    t: RetryTrackerView,
    now: u64,
    delay_ms: u64,
    window_ms: u64,
    failure: Option<Seq<char>>,
) -> RetryTrackerView {
    let counted = RetryTrackerView {
        attempts: increment(t.attempts),
        first_failure_at: Some(window_start(t, now)),
        ..t
    };
    let judged = if in_window(t, now, window_ms) {
        RetryTrackerView {
            next_retry_at: Some(plus(now, delay_ms)),
            last_transition_reason: Some(
                if failure is None {
                    TransitionReason::SpawnedByReconcile
                } else {
                    TransitionReason::SpawnFailedRetryScheduled
                },
            ),
            ..counted
        }
    } else {
        RetryTrackerView {
            degraded: true,
            last_transition_reason: Some(
                if failure is None {
                    TransitionReason::SpawnRetryWindowExhausted
                } else {
                    TransitionReason::SpawnFailedDegraded
                },
            ),
            ..counted
        }
    };
    if failure is Some {
        RetryTrackerView { last_error: failure, ..judged }
    } else {
        judged
    }
}

/// The bookkeeping after a command reset it.
pub open spec fn reset(t: RetryTrackerView) -> RetryTrackerView {
    RetryTrackerView {
        attempts: 0,
        degraded: false,
        first_failure_at: None,
        next_retry_at: None,
        last_error: None,
        last_transition_reason: Some(TransitionReason::RetryStateResetByCommand),
        ..t
    }
}

/// `s` with `k` appended when `cond` holds.
pub open spec fn appended_if(s: Seq<Seq<char>>, cond: bool, k: Seq<char>) -> Seq<Seq<char>> {
    if cond {
        s.push(k)
    } else {
        s
    }
}

/// What a reconcile pass has built so far: the bookkeeping of each service
/// and, as names, the services it started, stopped, found running and found
/// degraded.
pub struct PassState {
    pub trackers: Map<Seq<char>, RetryTrackerView>,
    pub started: Seq<Seq<char>>,
    pub stopped: Seq<Seq<char>>,
    pub running: Seq<Seq<char>>,
    pub degraded: Seq<Seq<char>>,
}

/// What reconcile does about service `k` with specification `s` and probe
/// `live`: `observe` first; then, when it decides to start the recorder,
/// `record_spawn` with the start's result (`failure` is `None` when it
/// started) and the backoff `delay_ms`; when it decides to stop it,
/// `record_stop`.
pub open spec fn pass_step(
    st: PassState,
    k: Seq<char>,
    s: ServiceSpecView,
    live: ServiceLiveStatusView,
    failure: Option<Seq<char>>,
    delay_ms: u64,
    now: u64,
    window_ms: u64,
) -> PassState {
    let t = observed(tracker_of(st.trackers, k), live.available, live.message, now);
    let a = decide(s, t, live.available, now);
    let seen = PassState {
        trackers: st.trackers.insert(k, t),
        running: appended_if(st.running, a == ReconcileAction::AlreadyRunning, k),
        degraded: appended_if(st.degraded, a == ReconcileAction::Degraded, k),
        ..st
    };
    if a == ReconcileAction::Spawn {
        let v = spawn_verdict(t, now, window_ms, failure is Some);
        PassState {
            trackers: seen.trackers.insert(k, spawn_recorded(t, now, delay_ms, window_ms, failure)),
            started: appended_if(seen.started, v == SpawnVerdict::Started, k),
            degraded: appended_if(seen.degraded, v == SpawnVerdict::Degraded, k),
            ..seen
        }
    } else if a == ReconcileAction::Stop {
        let reason = if s.paused {
            TransitionReason::StoppedPaused
        } else {
            TransitionReason::StoppedDisabled
        };
        PassState {
            trackers: seen.trackers.insert(
                k,
                RetryTrackerView { last_transition_reason: Some(reason), ..t },
            ),
            stopped: seen.stopped.push(k),
            ..seen
        }
    } else {
        seen
    }
}

/// A reconcile pass over the first `n` services, in order, from `st`:
/// service `i` is `keys[i]` with specification `specs[i]` and probe
/// `lives[i]`; `failures[i]` and `delays[i]` are how a start of its recorder
/// ends and the backoff it schedules, used only when the pass starts it.
pub open spec fn pass(
    st: PassState,
    keys: Seq<Seq<char>>,
    specs: Seq<ServiceSpecView>,
    lives: Seq<ServiceLiveStatusView>,
    failures: Seq<Option<Seq<char>>>,
    delays: Seq<u64>,
    now: u64,
    window_ms: u64,
    n: nat,
) -> PassState
    decreases n,
{
    if n == 0 {
        st
    } else {
        let i = n - 1;
        pass_step(
            pass(st, keys, specs, lives, failures, delays, now, window_ms, (n - 1) as nat),
            keys[i],
            specs[i],
            lives[i],
            failures[i],
            delays[i],
            now,
            window_ms,
        )
    }
}

/// The bookkeeping of `o` and the lists of `outcome`, as names: where a
/// reconcile pass stands.
pub open spec fn pass_state(o: Orchestrator, outcome: ReconcileOutcome) -> PassState {
    PassState {
        trackers: o.trackers(),
        started: names(outcome.started_services@),
        stopped: names(outcome.stopped_services@),
        running: names(outcome.already_running_services@),
        degraded: names(outcome.degraded_services@),
    }
}

/// How a start of a recorder ended, as `record_spawn` records it: `None`
/// when it started, the error text otherwise.
pub open spec fn spawn_failure(spawned: Result<u32, String>) -> Option<Seq<char>> {
    match spawned {
        Ok(_) => None,
        Err(m) => Some(m@),
    }
}

/// `observe` took the orchestrator and outcome from `o0`, `out0` to `o1`,
/// `out1` for the `i`-th service, with probe `live` at `now`, and decided
/// `action`.
pub open spec fn observe_step(
    o0: Orchestrator,
    out0: ReconcileOutcome,
    o1: Orchestrator,
    out1: ReconcileOutcome,
    i: int,
    live: ServiceLiveStatusView,
    now: u64,
    action: ReconcileAction,
) -> bool {
    let k = o0.state.services.keys()[i];
    let t = observed(tracker_of(o0.trackers(), k), live.available, live.message, now);
    &&& o1.state == o0.state
    &&& o1.should_shutdown == o0.should_shutdown
    &&& o1.trackers() =~= o0.trackers().insert(k, t)
    &&& action == decide(o0.state.services.values()[i]@, t, live.available, now)
    &&& names(out1.already_running_services@) == appended_if(
        names(out0.already_running_services@),
        action is AlreadyRunning,
        k,
    )
    &&& names(out1.degraded_services@) == appended_if(
        names(out0.degraded_services@),
        action is Degraded,
        k,
    )
    &&& out1.started_services == out0.started_services
    &&& out1.stopped_services == out0.stopped_services
}

/// `record_spawn` took `o1`, `out1` to `o2`, `out2` for the `i`-th service
/// with the start result `spawned`, and judged it `verdict`.
pub open spec fn spawn_step(
    o1: Orchestrator,
    out1: ReconcileOutcome,
    o2: Orchestrator,
    out2: ReconcileOutcome,
    i: int,
    now: u64,
    delay_ms: u64,
    window_ms: u64,
    spawned: Result<u32, String>,
    verdict: SpawnVerdict,
) -> bool {
    let k = o1.state.services.keys()[i];
    let t = o1.trackers()[k];
    &&& o2.state == o1.state
    &&& o2.should_shutdown == o1.should_shutdown
    &&& o2.trackers() =~= o1.trackers().insert(
        k,
        spawn_recorded(t, now, delay_ms, window_ms, spawn_failure(spawned)),
    )
    &&& verdict == spawn_verdict(t, now, window_ms, spawned is Err)
    &&& names(out2.started_services@) == appended_if(
        names(out1.started_services@),
        verdict is Started,
        k,
    )
    &&& names(out2.degraded_services@) == appended_if(
        names(out1.degraded_services@),
        verdict is Degraded,
        k,
    )
    &&& out2.stopped_services == out1.stopped_services
    &&& out2.already_running_services == out1.already_running_services
}

/// `record_stop` took `o1`, `out1` to `o2`, `out2` for the `i`-th service.
pub open spec fn stop_step(
    o1: Orchestrator,
    out1: ReconcileOutcome,
    o2: Orchestrator,
    out2: ReconcileOutcome,
    i: int,
) -> bool {
    let k = o1.state.services.keys()[i];
    let t = o1.trackers()[k];
    let reason = if o1.state.services.values()[i]@.paused {
        TransitionReason::StoppedPaused
    } else {
        TransitionReason::StoppedDisabled
    };
    &&& o2.state == o1.state
    &&& o2.should_shutdown == o1.should_shutdown
    &&& o2.trackers() =~= o1.trackers().insert(
        k,
        RetryTrackerView { last_transition_reason: Some(reason), ..t },
    )
    &&& names(out2.stopped_services@) == names(out1.stopped_services@).push(k)
    &&& out2.started_services == out1.started_services
    &&& out2.degraded_services == out1.degraded_services
    &&& out2.already_running_services == out1.already_running_services
}

/// The reported name of an optional reason.
pub open spec fn reason_view(r: Option<TransitionReason>) -> Option<Seq<char>> {
    match r {
        Some(x) => Some(reason_text(x)),
        None => None,
    }
}

/// `h` reports the health of `service` with specification `s`, bookkeeping
/// `t` and probe result `live` at `now`: ages and delays are measured from
/// `now` and never negative.
pub open spec fn health_of(
    h: ServiceHealth,
    service: Seq<char>,
    s: ServiceSpecView,
    t: RetryTrackerView,
    live: ServiceLiveStatusView,
    now: u64,
) -> bool {
    &&& h.identity.service@ == service
    &&& h.identity.instance@ == s.instance
    &&& h.identity.generation == s.generation
    &&& h.live@ == live
    &&& h.heartbeat_age_ms == match t.last_heartbeat_at {
        Some(ts) => Some(minus(now, ts)),
        None => None::<u64>,
    }
    &&& opt_text(h.last_error) == t.last_error
    &&& opt_text(h.last_transition_reason) == reason_view(t.last_transition_reason)
    &&& h.restart_attempts == t.attempts
    &&& h.degraded == t.degraded
    &&& h.next_retry_in_ms == match t.next_retry_at {
        Some(ts) => Some(minus(ts, now)),
        None => None::<u64>,
    }
}

/// `e` lists `service` with specification `s`, and its health from
/// bookkeeping `t` and probe `live` at `now`.
pub open spec fn listed(
    e: ListEntry,
    service: Seq<char>,
    s: ServiceSpecView,
    t: RetryTrackerView,
    live: ServiceLiveStatusView,
    now: u64,
) -> bool {
    &&& e.service@ == service
    &&& e.enabled == s.enabled
    &&& e.paused == s.paused
    &&& e.health matches Some(h) && health_of(h, service, s, t, live, now)
}

fn reason_string(r: Option<TransitionReason>) -> (s: Option<String>)
    ensures
        opt_text(s) == reason_view(r),
{
    match r {
        Some(x) => Some(String::from_str(x.as_str())),
        None => None,
    }
}

/// The answer to stop: a stop is requested when the recorder is live.
pub fn stop_response(service: String, live: &ServiceLiveStatus) -> (r: CommandResponse)
    ensures
        r == (CommandResponse::Stop { service, stop_requested: live.available }),
{
    CommandResponse::Stop { service, stop_requested: live.available }
}

impl Orchestrator {
    /// The slot of `name` in the retry table, creating fresh bookkeeping
    /// when there is none.
    fn tracker_slot(&mut self, name: &String) -> (j: usize)
        ensures
            final(self).state == old(self).state,
            final(self).should_shutdown == old(self).should_shutdown,
            final(self).trackers() == old(self).trackers().insert(
                name@,
                tracker_of(old(self).trackers(), name@),
            ),
            j < final(self).retry.keys().len(),
            final(self).retry.keys()[j as int] == name@,
            final(self).retry.values()[j as int]@ == tracker_of(old(self).trackers(), name@),
    {
        match self.retry.find(name) {
            Some(j) => {
                proof {
                    use_type_invariant(&self.retry);
                    self.retry.lemma_position(j as int);
                    assert(self.trackers().insert(name@, self.trackers()[name@]) =~= self.trackers());
                }
                j
            },
            None => {
                self.retry.insert(name.clone(), RetryTracker::new());
                let j = self.retry.find(name).unwrap();
                proof {
                    use_type_invariant(&self.retry);
                    self.retry.lemma_position(j as int);
                }
                j
            },
        }
    }

    /// Take the probe of the `i`-th service into its bookkeeping and decide
    /// what reconcile does about it. A live recorder that is wanted is noted
    /// as already running, a degraded one as degraded; starting and stopping
    /// are left to the caller, who reports back.
    pub fn observe(
        &mut self,
        i: usize,
        live: &ServiceLiveStatus,
        now: u64,
        outcome: &mut ReconcileOutcome,
    ) -> (action: ReconcileAction)
        requires
            i < old(self).state.services.keys().len(),
        ensures
            observe_step(*old(self), *old(outcome), *final(self), *final(outcome), i as int, live@, now, action),
    {
        let name = self.state.services.name_at(i).clone();
        let j = self.tracker_slot(&name);
        let mut t = self.retry.value_at(j).duplicate();
        let ghost t0 = t@;
        if live.available {
            t.last_heartbeat_at = Some(now);
            t.last_error = None;
            if t.attempts > 0 || t.degraded {
                t.attempts = 0;
                t.degraded = false;
                t.first_failure_at = None;
                t.next_retry_at = None;
                t.last_transition_reason = Some(TransitionReason::ServiceRecovered);
            }
        } else {
            match &live.message {
                Some(m) => {
                    t.last_error = Some(m.clone());
                },
                None => {},
            }
        }
        assert(t@ == observed(t0, live.available, opt_text(live.message), now));
        let degraded = t.degraded;
        let next_retry_at = t.next_retry_at;
        self.retry.set_at(j, t);
        let spec = self.state.services.value_at(i);
        let action = if spec.enabled && !spec.paused {
            if live.available {
                ReconcileAction::AlreadyRunning
            } else if degraded {
                ReconcileAction::Degraded
            } else {
                match next_retry_at {
                    Some(at) => if now < at {
                        ReconcileAction::Waiting
                    } else {
                        ReconcileAction::Spawn
                    },
                    None => ReconcileAction::Spawn,
                }
            }
        } else if live.available {
            ReconcileAction::Stop
        } else {
            ReconcileAction::Idle
        };
        match action {
            ReconcileAction::AlreadyRunning => {
                outcome.already_running_services.push(name);
                assert(names(outcome.already_running_services@) =~= names(
                    old(outcome).already_running_services@,
                ).push(self.state.services.keys()[i as int]));
            },
            ReconcileAction::Degraded => {
                outcome.degraded_services.push(name);
                assert(names(outcome.degraded_services@) =~= names(
                    old(outcome).degraded_services@,
                ).push(self.state.services.keys()[i as int]));
            },
            _ => {},
        }
        action
    }

    /// The attempt number the next start of the `i`-th service will be.
    pub fn next_attempt(&self, i: usize) -> (n: u32)
        requires
            i < self.state.services.keys().len(),
            self.trackers().contains_key(self.state.services.keys()[i as int]),
        ensures
            n == increment(self.trackers()[self.state.services.keys()[i as int]].attempts),
    {
        let name = self.state.services.name_at(i);
        match self.retry.get(name) {
            Some(t) => if t.attempts == u32::MAX {
                t.attempts
            } else {
                t.attempts + 1
            },
            None => 1,
        }
    }

    /// Take the result of an attempt at `now` to start the recorder of the
    /// `i`-th service into its bookkeeping; `delay_ms` is the backoff before
    /// the next attempt and `window_ms` the retry window. A start within the
    /// window is noted as started, any attempt past it as degraded.
    pub fn record_spawn(
        &mut self,
        i: usize,
        now: u64,
        delay_ms: u64,
        window_ms: u64,
        spawned: Result<u32, String>,
        outcome: &mut ReconcileOutcome,
    ) -> (verdict: SpawnVerdict)
        requires
            i < old(self).state.services.keys().len(),
            old(self).trackers().contains_key(old(self).state.services.keys()[i as int]),
        ensures
            spawn_step(
                *old(self),
                *old(outcome),
                *final(self),
                *final(outcome),
                i as int,
                now,
                delay_ms,
                window_ms,
                spawned,
                verdict,
            ),
    {
        let name = self.state.services.name_at(i).clone();
        let j = self.tracker_slot(&name);
        let mut t = self.retry.value_at(j).duplicate();
        let ghost t0 = t@;
        t.attempts = if t.attempts == u32::MAX {
            t.attempts
        } else {
            t.attempts + 1
        };
        let first = match t.first_failure_at {
            Some(f) => f,
            None => now,
        };
        t.first_failure_at = Some(first);
        let elapsed = if now >= first {
            now - first
        } else {
            0
        };
        let within = elapsed <= window_ms;
        let failed = spawned.is_err();
        if within {
            t.next_retry_at = Some(
                if now > u64::MAX - delay_ms {
                    u64::MAX
                } else {
                    now + delay_ms
                },
            );
            t.last_transition_reason = Some(
                if failed {
                    TransitionReason::SpawnFailedRetryScheduled
                } else {
                    TransitionReason::SpawnedByReconcile
                },
            );
        } else {
            t.degraded = true;
            t.last_transition_reason = Some(
                if failed {
                    TransitionReason::SpawnFailedDegraded
                } else {
                    TransitionReason::SpawnRetryWindowExhausted
                },
            );
        }
        let ghost failure = match &spawned {
            Ok(_) => None,
            Err(m) => Some(m@),
        };
        match spawned {
            Ok(_) => {},
            Err(m) => {
                t.last_error = Some(m);
            },
        }
        assert(t@ == spawn_recorded(t0, now, delay_ms, window_ms, failure));
        self.retry.set_at(j, t);
        let verdict = if !within {
            SpawnVerdict::Degraded
        } else if failed {
            SpawnVerdict::RetryScheduled
        } else {
            SpawnVerdict::Started
        };
        match verdict {
            SpawnVerdict::Started => {
                outcome.started_services.push(name);
                assert(names(outcome.started_services@) =~= names(
                    old(outcome).started_services@,
                ).push(self.state.services.keys()[i as int]));
            },
            SpawnVerdict::Degraded => {
                outcome.degraded_services.push(name);
                assert(names(outcome.degraded_services@) =~= names(
                    old(outcome).degraded_services@,
                ).push(self.state.services.keys()[i as int]));
            },
            SpawnVerdict::RetryScheduled => {},
        }
        verdict
    }

    /// Note that the recorder of the `i`-th service was asked to stop because
    /// it is paused or disabled.
    pub fn record_stop(&mut self, i: usize, outcome: &mut ReconcileOutcome)
        requires
            i < old(self).state.services.keys().len(),
            old(self).trackers().contains_key(old(self).state.services.keys()[i as int]),
        ensures
            stop_step(*old(self), *old(outcome), *final(self), *final(outcome), i as int),
    {
        let name = self.state.services.name_at(i).clone();
        let paused = self.state.services.value_at(i).paused;
        let j = self.tracker_slot(&name);
        let mut t = self.retry.value_at(j).duplicate();
        t.last_transition_reason = Some(
            if paused {
                TransitionReason::StoppedPaused
            } else {
                TransitionReason::StoppedDisabled
            },
        );
        self.retry.set_at(j, t);
        outcome.stopped_services.push(name);
        assert(names(outcome.stopped_services@) =~= names(old(outcome).stopped_services@).push(
            self.state.services.keys()[i as int],
        ));
    }

    /// Clear the retry state of `service` after a command that asks for it
    /// to run: no attempts, not degraded, no window, no error. A service
    /// without bookkeeping keeps having none.
    pub fn reset_retry_state(&mut self, service: &String)
        ensures
            final(self).state == old(self).state,
            final(self).should_shutdown == old(self).should_shutdown,
            old(self).trackers().contains_key(service@) ==> final(self).trackers() == old(self).trackers().insert(service@, reset(old(self).trackers()[service@])),
            !old(self).trackers().contains_key(service@) ==> final(self).trackers() == old(self).trackers(),
    {
        match self.retry.find(service) {
            Some(j) => {
                proof {
                    use_type_invariant(&self.retry);
                    self.retry.lemma_position(j as int);
                }
                let mut t = self.retry.value_at(j).duplicate();
                t.attempts = 0;
                t.degraded = false;
                t.first_failure_at = None;
                t.next_retry_at = None;
                t.last_error = None;
                t.last_transition_reason = Some(TransitionReason::RetryStateResetByCommand);
                self.retry.set_at(j, t);
            },
            None => {},
        }
    }

    /// The health of the `i`-th service from its probe `live` at `now`; the
    /// probe updates the heartbeat and last error of its bookkeeping.
    fn health_at(&mut self, i: usize, live: ServiceLiveStatus, now: u64) -> (h: ServiceHealth)
        requires
            i < old(self).state.services.keys().len(),
        ensures
            final(self).state == old(self).state,
            final(self).should_shutdown == old(self).should_shutdown,
            ({
                let k = old(self).state.services.keys()[i as int];
                let t = heartbeat_seen(
                    tracker_of(old(self).trackers(), k),
                    live.available,
                    opt_text(live.message),
                    now,
                );
                &&& final(self).trackers() == old(self).trackers().insert(k, t)
                &&& health_of(h, k, old(self).state.services.values()[i as int]@, t, live@, now)
            }),
    {
        let name = self.state.services.name_at(i).clone();
        let j = self.tracker_slot(&name);
        let mut t = self.retry.value_at(j).duplicate();
        if live.available {
            t.last_heartbeat_at = Some(now);
            t.last_error = None;
        } else {
            match &live.message {
                Some(m) => {
                    t.last_error = Some(m.clone());
                },
                None => {},
            }
        }
        let heartbeat_age_ms = match t.last_heartbeat_at {
            Some(ts) => Some(
                if now >= ts {
                    now - ts
                } else {
                    0
                },
            ),
            None => None,
        };
        let next_retry_in_ms = match t.next_retry_at {
            Some(ts) => Some(
                if ts > now {
                    ts - now
                } else {
                    0
                },
            ),
            None => None,
        };
        let spec = self.state.services.value_at(i);
        let h = ServiceHealth {
            identity: ServiceIdentity {
                service: name,
                instance: spec.instance.clone(),
                generation: spec.generation,
            },
            live,
            heartbeat_age_ms,
            last_error: copy_opt_text(&t.last_error),
            last_transition_reason: reason_string(t.last_transition_reason),
            restart_attempts: t.attempts,
            degraded: t.degraded,
            next_retry_in_ms,
        };
        self.retry.set_at(j, t);
        h
    }

    /// Answer a status request for `service`. The probe `live` is needed,
    /// and used, only for a configured service; the health of any other
    /// service is absent.
    pub fn status(&mut self, service: &String, live: Option<ServiceLiveStatus>, now: u64) -> (r:
        Result<CommandResponse, CommandError>)
        requires
            old(self).services().contains_key(service@) ==> live is Some,
        ensures
            final(self).state == old(self).state,
            final(self).should_shutdown == old(self).should_shutdown,
            is_blank(service@) ==> (r matches Err(CommandError::InvalidInput(m)) && m@
                == empty_service_message() && final(self).trackers() == old(self).trackers()),
            !is_blank(service@) && !old(self).services().contains_key(service@) ==> (r matches Ok(
                CommandResponse::Status { service: s, configured, enabled, paused, health },
            ) && s@ == service@ && !configured && !enabled && !paused && health is None
                && final(self).trackers() == old(self).trackers()),
            !is_blank(service@) && old(self).services().contains_key(service@) ==> ({
                let spec = old(self).services()[service@];
                let l = live->0;
                let t = heartbeat_seen(
                    tracker_of(old(self).trackers(), service@),
                    l.available,
                    opt_text(l.message),
                    now,
                );
                &&& final(self).trackers() == old(self).trackers().insert(service@, t)
                &&& r matches Ok(
                    CommandResponse::Status { service: s, configured, enabled, paused, health },
                )
                &&& s@ == service@ && configured && enabled == spec.enabled && paused == spec.paused
                &&& health matches Some(h) && health_of(h, service@, spec, t, l@, now)
            }),
    {
        ensure_service(service.as_str())?;
        match self.state.services.find(service) {
            Some(i) => {
                proof {
                    use_type_invariant(&self.state.services);
                    self.state.services.lemma_position(i as int);
                }
                let enabled = self.state.services.value_at(i).enabled;
                let paused = self.state.services.value_at(i).paused;
                let h = self.health_at(i, live.unwrap(), now);
                Ok(
                    CommandResponse::Status {
                        service: service.clone(),
                        configured: true,
                        enabled,
                        paused,
                        health: Some(h),
                    },
                )
            },
            None => Ok(
                CommandResponse::Status {
                    service: service.clone(),
                    configured: false,
                    enabled: false,
                    paused: false,
                    health: None,
                },
            ),
        }
    }

    /// The list entry of the `i`-th service from its probe `live` at `now`:
    /// its name, intent and health. The probe updates the heartbeat and last
    /// error of its bookkeeping.
    pub fn list_entry(&mut self, i: usize, live: ServiceLiveStatus, now: u64) -> (e: ListEntry)
        requires
            i < old(self).state.services.keys().len(),
        ensures
            final(self).state == old(self).state,
            final(self).should_shutdown == old(self).should_shutdown,
            ({
                let k = old(self).state.services.keys()[i as int];
                let t = heartbeat_seen(
                    tracker_of(old(self).trackers(), k),
                    live.available,
                    opt_text(live.message),
                    now,
                );
                &&& final(self).trackers() == old(self).trackers().insert(k, t)
                &&& listed(e, k, old(self).state.services.values()[i as int]@, t, live@, now)
            }),
    {
        let name = self.state.services.name_at(i).clone();
        let enabled = self.state.services.value_at(i).enabled;
        let paused = self.state.services.value_at(i).paused;
        let h = self.health_at(i, live, now);
        ListEntry { service: name, enabled, paused, health: Some(h) }
    }

    /// Answer a list request: every configured service in ascending name
    /// order with its intent and health, from its probe `lives[i]`.
    #[verifier::spinoff_prover]
    pub fn list(&mut self, lives: &Vec<ServiceLiveStatus>, now: u64) -> (r: CommandResponse)
        requires
            lives@.len() == old(self).state.services.keys().len(),
        ensures
            final(self).state == old(self).state,
            final(self).should_shutdown == old(self).should_shutdown,
            r matches CommandResponse::List { services } && services@.len() == lives@.len()
                && forall|i: int|
                0 <= i < services@.len() ==> listed(
                    #[trigger] services@[i],
                    old(self).state.services.keys()[i],
                    old(self).state.services.values()[i]@,
                    heartbeat_seen(
                        tracker_of(old(self).trackers(), old(self).state.services.keys()[i]),
                        lives@[i].available,
                        opt_text(lives@[i].message),
                        now,
                    ),
                    lives@[i]@,
                    now,
                ) && final(self).trackers().contains_key(old(self).state.services.keys()[i])
                    && final(self).trackers()[old(self).state.services.keys()[i]] == heartbeat_seen(
                    tracker_of(old(self).trackers(), old(self).state.services.keys()[i]),
                    lives@[i].available,
                    opt_text(lives@[i].message),
                    now,
                ),
            forall|k: Seq<char>|
                !old(self).services().contains_key(k) ==> (#[trigger] final(self).trackers().contains_key(k) == old(self).trackers().contains_key(k) && (old(self).trackers().contains_key(k) ==> final(self).trackers()[k] == old(self).trackers()[k])),
    {
        let n = self.state.services.len();
        let mut entries: Vec<ListEntry> = Vec::new();
        let mut i: usize = 0;
        while i < n
            invariant
                self.state == old(self).state,
                self.should_shutdown == old(self).should_shutdown,
                n == self.state.services.keys().len(),
                lives@.len() == n,
                i <= n,
                entries@.len() == i,
                forall|q: int|
                    0 <= q < i ==> listed(
                        #[trigger] entries@[q],
                        old(self).state.services.keys()[q],
                        old(self).state.services.values()[q]@,
                        heartbeat_seen(
                            tracker_of(old(self).trackers(), old(self).state.services.keys()[q]),
                            lives@[q].available,
                            opt_text(lives@[q].message),
                            now,
                        ),
                        lives@[q]@,
                        now,
                    ) && self.trackers().contains_key(old(self).state.services.keys()[q])
                        && self.trackers()[old(self).state.services.keys()[q]] == heartbeat_seen(
                        tracker_of(old(self).trackers(), old(self).state.services.keys()[q]),
                        lives@[q].available,
                        opt_text(lives@[q].message),
                        now,
                    ),
                forall|k: Seq<char>|
                    (!old(self).services().contains_key(k) || exists|q: int|
                        i <= q < n && old(self).state.services.keys()[q] == k) ==> (
                    #[trigger] self.trackers().contains_key(k) == old(self).trackers().contains_key(
                        k,
                    ) && (old(self).trackers().contains_key(k) ==> self.trackers()[k] == old(self).trackers()[k])),
            decreases n - i,
        {
            let ghost k = self.state.services.keys()[i as int];
            let ghost before = self.trackers();
            proof {
                use_type_invariant(&self.state.services);
                self.state.services.lemma_position(i as int);
            }
            let live = lives[i].duplicate();
            let e = self.list_entry(i, live, now);
            entries.push(e);
            proof {
                assert forall|q: int| 0 <= q < i implies old(self).state.services.keys()[q] != k by {
                    crate::name_map::lemma_ascending_distinct(
                        self.state.services.keys(),
                        q,
                        i as int,
                    );
                }
                assert(before.contains_key(k) == old(self).trackers().contains_key(k));
                assert forall|kk: Seq<char>|
                    (!old(self).services().contains_key(kk) || exists|q: int|
                        i + 1 <= q < n && old(self).state.services.keys()[q] == kk) implies (
                    #[trigger] self.trackers().contains_key(kk) == old(self).trackers().contains_key(kk) && (old(self).trackers().contains_key(kk)
                        ==> self.trackers()[kk] == old(self).trackers()[kk])) by {
                    if old(self).services().contains_key(kk) {
                        let q = choose|q: int|
                            i + 1 <= q < n && old(self).state.services.keys()[q] == kk;
                        crate::name_map::lemma_ascending_distinct(
                            self.state.services.keys(),
                            q,
                            i as int,
                        );
                        assert(exists|q2: int|
                            i <= q2 < n && old(self).state.services.keys()[q2] == kk);
                    } else {
                        assert(kk != k);
                    }
                }
            }
            i = i + 1;
        }
        CommandResponse::List { services: entries }
    }

    /// Answer a daemon-status request: where the state lives, the control
    /// service, the reconcile interval and how many services are configured.
    pub fn daemon_status(
        &self,
        state_path: String,
        control_service: String,
        reconcile_interval_ms: u64,
    ) -> (r: CommandResponse)
        ensures
            r matches CommandResponse::DaemonStatus {
                state_path: p,
                control_service: c,
                reconcile_interval_ms: m,
                known_services: n,
            } && p == state_path && c == control_service && m == reconcile_interval_ms && n
                == self.state.services.keys().len(),
    {
        let known_services = self.state.services.len();
        CommandResponse::DaemonStatus {
            state_path,
            control_service,
            reconcile_interval_ms,
            known_services,
        }
    }

    /// Accept a shutdown: the daemon stops after answering.
    pub fn shutdown(&mut self) -> (r: CommandResponse)
        ensures
            final(self).should_shutdown,
            final(self).state == old(self).state,
            final(self).retry == old(self).retry,
            r == (CommandResponse::Shutdown { accepted: true }),
    {
        self.should_shutdown = true;
        CommandResponse::Shutdown { accepted: true }
    }
}

} // verus!
