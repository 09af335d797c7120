use log_archive_orchestrator::model::{
    default_cycle_time_ms, default_flush_interval_ms, default_generation, default_instance,
    jitter_seed, DesiredState, PersistenceMode, RecorderProfile, RetryTracker, ServiceSpec,
    SpecIssue, StateError, TransitionReason, DESIRED_STATE_VERSION,
};
use log_archive_orchestrator::name_map::NameMap;

fn spec() -> ServiceSpec {
    ServiceSpec {
        enabled: true,
        paused: false,
        instance: "default".to_string(),
        generation: 1,
        storage_path: "/tmp/storage".to_string(),
        metadata_log_path: "/tmp/metadata".to_string(),
        profile: RecorderProfile::Balanced,
        mode: PersistenceMode::Async,
        cycle_time_ms: 10,
        flush_interval_ms: 100,
        max_disk_bytes: None,
        async_io_backend: None,
        io_uring_queue_depth: None,
        io_submit_batch_max: None,
        io_cqe_batch_max: None,
        io_uring_register_files: None,
        checksum_mode: None,
        out_of_space_policy: None,
        metadata_log_roll_bytes: None,
        metadata_log_max_bytes: None,
    }
}

#[test]
fn validate_accepts_complete_spec() {
    assert!(spec().validate("My/Camera/Service").is_ok());
}

#[test]
fn validate_reports_first_broken_rule() {
    let mut s = spec();
    s.instance = "  ".to_string();
    s.generation = 0;
    let e = s.validate("svc").unwrap_err();
    assert_eq!(e.issue, SpecIssue::EmptyInstance);
    assert_eq!(e.message(), "instance for service 'svc' must not be empty");

    let e = spec().validate(" \t\n").unwrap_err();
    assert_eq!(e.issue, SpecIssue::EmptyServiceName);
    assert_eq!(e.message(), "service name must not be empty");

    let mut s = spec();
    s.generation = 0;
    assert_eq!(
        s.validate("svc").unwrap_err().message(),
        "generation for service 'svc' must be > 0"
    );

    let mut s = spec();
    s.storage_path = String::new();
    assert_eq!(
        s.validate("svc").unwrap_err().message(),
        "storage_path for service 'svc' must not be empty"
    );

    let mut s = spec();
    s.metadata_log_path = "\u{3000}".to_string();
    assert_eq!(
        s.validate("svc").unwrap_err().message(),
        "metadata_log_path for service 'svc' must not be empty"
    );

    let mut s = spec();
    s.cycle_time_ms = 0;
    assert_eq!(
        s.validate("svc").unwrap_err().message(),
        "cycle_time_ms for service 'svc' must be > 0"
    );
}

#[test]
fn desired_state_new_is_current_and_empty() {
    let state = DesiredState::new();
    assert_eq!(state.version, DESIRED_STATE_VERSION);
    assert_eq!(state.services.len(), 0);
    assert!(state.validate().is_ok());
}

#[test]
fn desired_state_validation_checks_version_then_services_in_order() {
    let mut state = DesiredState::new();
    state.version = 2;
    match state.validate() {
        Err(e @ StateError::UnsupportedVersion(2)) => {
            assert_eq!(e.message(), "unsupported desired-state version 2, expected 1")
        }
        other => panic!("unexpected {other:?}"),
    }

    let mut state = DesiredState::new();
    let mut bad_b = spec();
    bad_b.cycle_time_ms = 0;
    let mut bad_a = spec();
    bad_a.storage_path = " ".to_string();
    state.services.insert("b".to_string(), bad_b);
    state.services.insert("a".to_string(), bad_a);
    match state.validate() {
        Err(StateError::InvalidService(e)) => {
            assert_eq!(e.service, "a");
            assert_eq!(e.issue, SpecIssue::EmptyStoragePath);
        }
        other => panic!("unexpected {other:?}"),
    }
}

#[test]
fn name_map_keeps_names_in_byte_order() {
    let mut m: NameMap<u64> = NameMap::new();
    m.insert("svc_b".to_string(), 2);
    m.insert("Svc_z".to_string(), 26);
    m.insert("svc_a".to_string(), 1);
    m.insert("svc_b".to_string(), 20);
    assert_eq!(m.len(), 3);
    let names: Vec<&str> = (0..m.len()).map(|i| m.name_at(i).as_str()).collect();
    assert_eq!(names, vec!["Svc_z", "svc_a", "svc_b"]);
    assert_eq!(m.get(&"svc_b".to_string()), Some(&20));
    assert_eq!(m.get(&"missing".to_string()), None);
    assert!(m.contains(&"svc_a".to_string()));
    assert_eq!(m.find(&"svc_a".to_string()), Some(1));
}

#[test]
fn defaults_match_the_schema() {
    assert_eq!(default_instance(), "default");
    assert_eq!(default_generation(), 1);
    assert_eq!(default_cycle_time_ms(), 10);
    assert_eq!(default_flush_interval_ms(), 100);
    assert_eq!(RecorderProfile::default(), RecorderProfile::Balanced);
    assert_eq!(PersistenceMode::default(), PersistenceMode::Async);
    assert_eq!(RecorderProfile::Durable.as_str(), "durable");
    assert_eq!(PersistenceMode::Volatile.as_str(), "volatile");
}

#[test]
fn retry_tracker_starts_clean() {
    let t = RetryTracker::new();
    assert_eq!(t.attempts, 0);
    assert!(!t.degraded);
    assert!(t.first_failure_at.is_none() && t.next_retry_at.is_none());
    assert!(t.last_error.is_none() && t.last_heartbeat_at.is_none());
    assert!(t.last_transition_reason.is_none());
    assert_eq!(
        TransitionReason::RetryStateResetByCommand.as_str(),
        "retry_state_reset_by_command"
    );
}

#[test]
fn jitter_seed_is_fnv1a_of_name_and_attempt() {
    assert_eq!(jitter_seed("My/Service", 16), 5940698506622430581);
    assert_eq!(jitter_seed("", 0), 12638153115695167455);
    assert_eq!(jitter_seed("svc_a", 1), 7622863713211904508);
    assert_ne!(jitter_seed("svc_a", 1), jitter_seed("svc_a", 2));
}
