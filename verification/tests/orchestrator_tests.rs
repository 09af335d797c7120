use std::collections::BTreeSet;

use log_archive_orchestrator::control_api::{CommandResponse, EnableRequest};
use log_archive_orchestrator::error::CommandError;
use log_archive_orchestrator::model::{DesiredState, PersistenceMode, RecorderProfile, ServiceLiveStatus};
use log_archive_orchestrator::orchestrator::{
    ensure_service, stop_response, Orchestrator, PendingResponse, ReconcileAction,
    ReconcileOutcome, SpawnVerdict,
};

fn enable_request(service: &str, storage: &str) -> EnableRequest {
    EnableRequest {
        service: service.to_string(),
        instance: "inst0".to_string(),
        storage_path: storage.to_string(),
        metadata_log_path: "/tmp/meta_a".to_string(),
        profile: RecorderProfile::Balanced,
        mode: PersistenceMode::Async,
        cycle_time_ms: 10,
        flush_interval_ms: 100,
        max_disk_bytes: None,
        async_io_backend: None,
        io_uring_queue_depth: None,
        io_submit_batch_max: None,
        io_cqe_batch_max: None,
        io_uring_register_files: None,
        checksum_mode: None,
        out_of_space_policy: None,
        metadata_log_roll_bytes: None,
        metadata_log_max_bytes: None,
    }
}

fn live() -> ServiceLiveStatus {
    ServiceLiveStatus {
        available: true,
        is_paused: Some(false),
        dropped_while_paused: Some(0),
        paused_since_ns: None,
        committed_records: Some(10),
        payload_bytes_committed: Some(1024),
        message: None,
    }
}

fn dead(message: &str) -> ServiceLiveStatus {
    ServiceLiveStatus {
        available: false,
        is_paused: None,
        dropped_while_paused: None,
        paused_since_ns: None,
        committed_records: None,
        payload_bytes_committed: None,
        message: Some(message.to_string()),
    }
}

/// A world of recorders: which services have a live recorder, how many
/// starts each got, and which ones fail to start.
struct World {
    live: BTreeSet<String>,
    spawns: Vec<String>,
    failing: BTreeSet<String>,
}

impl World {
    fn new() -> Self {
        World { live: BTreeSet::new(), spawns: Vec::new(), failing: BTreeSet::new() }
    }

    fn probe(&self, name: &str) -> ServiceLiveStatus {
        if self.live.contains(name) {
            live()
        } else {
            dead("not available")
        }
    }

    /// One reconcile pass, as the daemon runs it.
    fn reconcile(&mut self, o: &mut Orchestrator, now: u64, delay: u64, window: u64) -> ReconcileOutcome {
        let mut outcome = ReconcileOutcome::new();
        for i in 0..o.service_count() {
            let name = o.service_name(i).clone();
            let status = self.probe(&name);
            match o.observe(i, &status, now, &mut outcome) {
                ReconcileAction::Spawn => {
                    let result = if self.failing.contains(&name) {
                        Err("spawn failed".to_string())
                    } else {
                        self.live.insert(name.clone());
                        self.spawns.push(name.clone());
                        Ok(42)
                    };
                    o.record_spawn(i, now, delay, window, result, &mut outcome);
                }
                ReconcileAction::Stop => {
                    self.live.remove(&name);
                    o.record_stop(i, &mut outcome);
                }
                _ => {}
            }
        }
        outcome
    }

    fn command(
        &mut self,
        o: &mut Orchestrator,
        pending: Result<PendingResponse, CommandError>,
        now: u64,
    ) -> CommandResponse {
        let pending = pending.unwrap();
        if pending.resets_retry() {
            let service = pending.service().clone();
            o.reset_retry_state(&service);
        }
        let outcome = self.reconcile(o, now, 250, 600_000);
        pending.complete(&outcome)
    }
}

#[test]
fn lifecycle_scenario_is_idempotent_and_reconciled() {
    let mut o = Orchestrator::new(DesiredState::new());
    let mut world = World::new();
    let svc = "svc_a".to_string();

    let r = o.enable(enable_request("svc_a", "/tmp/storage_a"));
    match world.command(&mut o, r, 0) {
        CommandResponse::Enable { changed, generation, started, .. } => {
            assert!(changed);
            assert_eq!(generation, 1);
            assert!(started);
        }
        other => panic!("{other:?}"),
    }

    let r = o.enable(enable_request("svc_a", "/tmp/storage_a"));
    match world.command(&mut o, r, 10) {
        CommandResponse::Enable { changed, generation, started, .. } => {
            assert!(!changed);
            assert_eq!(generation, 1);
            assert!(!started);
        }
        other => panic!("{other:?}"),
    }

    let r = o.pause(&svc);
    match world.command(&mut o, r, 20) {
        CommandResponse::Pause { changed, stop_requested, .. } => {
            assert!(changed);
            assert!(stop_requested);
        }
        other => panic!("{other:?}"),
    }

    let r = o.resume(&svc);
    match world.command(&mut o, r, 30) {
        CommandResponse::Resume { changed, started, .. } => {
            assert!(changed);
            assert!(started);
        }
        other => panic!("{other:?}"),
    }

    let r = o.disable(&svc);
    match world.command(&mut o, r, 40) {
        CommandResponse::Disable { changed, stop_requested, .. } => {
            assert!(changed);
            assert!(stop_requested);
        }
        other => panic!("{other:?}"),
    }

    let r = o.disable(&svc);
    match world.command(&mut o, r, 50) {
        CommandResponse::Disable { changed, stop_requested, .. } => {
            assert!(!changed);
            assert!(!stop_requested);
        }
        other => panic!("{other:?}"),
    }
    assert_eq!(world.spawns, vec!["svc_a".to_string(), "svc_a".to_string()]);
}

#[test]
fn changed_configuration_raises_generation() {
    let mut o = Orchestrator::new(DesiredState::new());
    match o.enable(enable_request("svc", "/a")).unwrap() {
        PendingResponse::Enable { changed, generation, .. } => {
            assert!(changed);
            assert_eq!(generation, 1);
        }
        other => panic!("{other:?}"),
    }
    match o.enable(enable_request("svc", "/b")).unwrap() {
        PendingResponse::Enable { changed, generation, .. } => {
            assert!(changed);
            assert_eq!(generation, 2);
        }
        other => panic!("{other:?}"),
    }
    let svc = "svc".to_string();
    o.disable(&svc).unwrap();
    match o.enable(enable_request("svc", "/b")).unwrap() {
        PendingResponse::Enable { changed, generation, .. } => {
            assert!(!changed);
            assert_eq!(generation, 2);
        }
        other => panic!("{other:?}"),
    }
}

#[test]
fn invalid_requests_are_refused_without_change() {
    let mut o = Orchestrator::new(DesiredState::new());
    match o.enable(enable_request("  ", "/a")) {
        Err(CommandError::InvalidInput(m)) => assert_eq!(m, "--service must not be empty"),
        other => panic!("{other:?}"),
    }
    match o.enable(enable_request("svc", " ")) {
        Err(CommandError::InvalidInput(m)) => {
            assert_eq!(m, "storage_path for service 'svc' must not be empty")
        }
        other => panic!("{other:?}"),
    }
    assert_eq!(o.service_count(), 0);
    let missing = "missing".to_string();
    for r in [o.pause(&missing), o.resume(&missing), o.start(&missing)] {
        match r {
            Err(CommandError::InvalidInput(m)) => assert_eq!(m, "unknown service 'missing'"),
            other => panic!("{other:?}"),
        }
    }
    match o.disable(&missing).unwrap() {
        PendingResponse::Disable { changed, .. } => assert!(!changed),
        other => panic!("{other:?}"),
    }
    assert!(ensure_service("").is_err());
    assert!(ensure_service("x").is_ok());
}

#[test]
fn start_forces_intent_and_pause_keeps_it() {
    let mut o = Orchestrator::new(DesiredState::new());
    let svc = "svc".to_string();
    o.enable(enable_request("svc", "/a")).unwrap();
    o.disable(&svc).unwrap();
    match o.pause(&svc).unwrap() {
        PendingResponse::Pause { changed, .. } => assert!(changed),
        other => panic!("{other:?}"),
    }
    assert!(!o.service_spec(0).enabled && o.service_spec(0).paused);
    match o.start(&svc).unwrap() {
        PendingResponse::Start { changed, .. } => assert!(changed),
        other => panic!("{other:?}"),
    }
    assert!(o.service_spec(0).enabled && !o.service_spec(0).paused);
    match o.start(&svc).unwrap() {
        PendingResponse::Start { changed, .. } => assert!(!changed),
        other => panic!("{other:?}"),
    }
}

#[test]
fn failing_service_degrades_after_retry_window() {
    let mut o = Orchestrator::new(DesiredState::new());
    let mut world = World::new();
    world.failing.insert("svc_fail".to_string());
    o.enable(enable_request("svc_fail", "/tmp/storage_fail")).unwrap();

    let mut now = 0;
    let mut degraded_at = None;
    while now <= 1000 {
        let outcome = world.reconcile(&mut o, now, 10, 100);
        if !outcome.degraded_services.is_empty() {
            degraded_at = Some(now);
            break;
        }
        now += 20;
    }
    assert_eq!(degraded_at, Some(120));

    let svc = "svc_fail".to_string();
    match o.status(&svc, Some(world.probe(&svc)), now).unwrap() {
        CommandResponse::Status { configured, enabled, health: Some(h), .. } => {
            assert!(configured && enabled);
            assert!(h.degraded);
            assert!(h.restart_attempts > 0);
            assert_eq!(h.last_transition_reason.as_deref(), Some("spawn_failed_degraded"));
            assert_eq!(h.last_error.as_deref(), Some("not available"));
            assert_eq!(h.identity.instance, "inst0");
        }
        other => panic!("{other:?}"),
    }

    // Degraded: no further attempts until a command resets it.
    let outcome = world.reconcile(&mut o, now + 1000, 10, 100);
    assert_eq!(outcome.degraded_services, vec!["svc_fail".to_string()]);
    o.reset_retry_state(&svc);
    world.failing.clear();
    let outcome = world.reconcile(&mut o, now + 2000, 10, 100);
    assert_eq!(outcome.started_services, vec!["svc_fail".to_string()]);
}

#[test]
fn spawn_verdicts_follow_the_window() {
    let mut o = Orchestrator::new(DesiredState::new());
    o.enable(enable_request("s", "/a")).unwrap();
    let mut outcome = ReconcileOutcome::new();
    assert_eq!(o.observe(0, &dead("x"), 5, &mut outcome), ReconcileAction::Spawn);
    assert_eq!(o.next_attempt(0), 1);
    assert_eq!(
        o.record_spawn(0, 5, 250, 100, Err("boom".to_string()), &mut outcome),
        SpawnVerdict::RetryScheduled
    );
    assert_eq!(o.observe(0, &dead("x"), 100, &mut outcome), ReconcileAction::Waiting);
    assert_eq!(o.observe(0, &dead("x"), 255, &mut outcome), ReconcileAction::Spawn);
    assert_eq!(o.next_attempt(0), 2);
    assert_eq!(
        o.record_spawn(0, 255, 250, 100, Ok(1), &mut outcome),
        SpawnVerdict::Degraded
    );
    assert_eq!(outcome.degraded_services, vec!["s".to_string()]);
    assert!(outcome.started_services.is_empty());
    // A live recorder recovers the service.
    assert_eq!(o.observe(0, &live(), 300, &mut outcome), ReconcileAction::AlreadyRunning);
    match o.status(&"s".to_string(), Some(live()), 310).unwrap() {
        CommandResponse::Status { health: Some(h), .. } => {
            assert!(!h.degraded);
            assert_eq!(h.restart_attempts, 0);
            assert_eq!(h.heartbeat_age_ms, Some(0));
            assert_eq!(h.last_transition_reason.as_deref(), Some("service_recovered"));
            assert_eq!(h.next_retry_in_ms, None);
        }
        other => panic!("{other:?}"),
    }
}

#[test]
fn status_list_and_daemon_status() {
    let mut o = Orchestrator::new(DesiredState::new());
    o.enable(enable_request("b", "/b")).unwrap();
    o.enable(enable_request("a", "/a")).unwrap();
    match o.status(&"zzz".to_string(), None, 0).unwrap() {
        CommandResponse::Status { configured, enabled, paused, health, .. } => {
            assert!(!configured && !enabled && !paused && health.is_none());
        }
        other => panic!("{other:?}"),
    }
    assert!(o.status(&" ".to_string(), None, 0).is_err());
    match o.list(&vec![live(), dead("gone ")], 7) {
        CommandResponse::List { services } => {
            assert_eq!(services.len(), 2);
            assert_eq!(services[0].service, "a");
            assert_eq!(services[1].service, "b");
            let h0 = services[0].health.as_ref().unwrap();
            assert!(h0.live.available);
            assert_eq!(h0.heartbeat_age_ms, Some(0));
            let h1 = services[1].health.as_ref().unwrap();
            assert_eq!(h1.last_error.as_deref(), Some("gone "));
            assert_eq!(h1.heartbeat_age_ms, None);
        }
        other => panic!("{other:?}"),
    }
    match o.daemon_status("/s.toml".to_string(), "ctl".to_string(), 1000) {
        CommandResponse::DaemonStatus { known_services, reconcile_interval_ms, .. } => {
            assert_eq!(known_services, 2);
            assert_eq!(reconcile_interval_ms, 1000);
        }
        other => panic!("{other:?}"),
    }
    match stop_response("a".to_string(), &live()) {
        CommandResponse::Stop { stop_requested, .. } => assert!(stop_requested),
        other => panic!("{other:?}"),
    }
    match o.shutdown() {
        CommandResponse::Shutdown { accepted } => assert!(accepted),
        other => panic!("{other:?}"),
    }
    assert!(o.should_shutdown);
}

#[test]
fn list_entries_are_built_one_probe_at_a_time() {
    let mut o = Orchestrator::new(DesiredState::new());
    o.enable(enable_request("b", "/b")).unwrap();
    o.enable(enable_request("a", "/a")).unwrap();
    let first = o.list_entry(0, dead("down"), 5);
    assert_eq!(first.service, "a");
    assert!(first.enabled && !first.paused);
    let h = first.health.as_ref().unwrap();
    assert_eq!(h.last_error.as_deref(), Some("down"));
    assert_eq!(h.identity.generation, 1);
    let second = o.list_entry(1, live(), 9);
    assert_eq!(second.service, "b");
    assert_eq!(second.health.as_ref().unwrap().heartbeat_age_ms, Some(0));
    match o.status(&"a".to_string(), Some(dead("still down")), 12).unwrap() {
        CommandResponse::Status { health: Some(h), .. } => {
            assert_eq!(h.last_error.as_deref(), Some("still down"));
        }
        other => panic!("{other:?}"),
    }
}

#[test]
fn a_pass_lists_each_service_once_in_name_order() {
    let mut o = Orchestrator::new(DesiredState::new());
    let mut world = World::new();
    for name in ["d", "c", "b", "a", "e"] {
        o.enable(enable_request(name, "/s")).unwrap();
    }
    o.disable(&"b".to_string()).unwrap();
    o.pause(&"c".to_string()).unwrap();
    o.disable(&"e".to_string()).unwrap();
    world.live.insert("b".to_string());
    world.live.insert("c".to_string());
    world.live.insert("d".to_string());
    let outcome = world.reconcile(&mut o, 0, 250, 600_000);
    assert_eq!(outcome.started_services, vec!["a".to_string()]);
    assert_eq!(outcome.stopped_services, vec!["b".to_string(), "c".to_string()]);
    assert_eq!(outcome.already_running_services, vec!["d".to_string()]);
    assert!(outcome.degraded_services.is_empty());
}
