use log_archive_orchestrator::command::{
    daemon_unreachable, request_from_action, require_action, EnableOptions, OrchestratorAction,
    ServiceOptions,
};
use log_archive_orchestrator::config::{
    default_state_path, env_number, first_of, resolve_settings, resolve_string, resolve_u64, resolve_u8,
    ConfigLayer, EnvLayer,
};
use log_archive_orchestrator::control::{
    live_status, unavailable_status, unavailable_with, ControlAction, ControlClient, ControlStatusReport,
};
use log_archive_orchestrator::control_api::{
    accept_response, check_request_version, respond, CommandResponse, ErrorPayload,
    RequestCommand, ResponseEnvelope, ResponsePayload,
};
use log_archive_orchestrator::error::CommandError;
use log_archive_orchestrator::model::{PersistenceMode, RecorderProfile};
use log_archive_orchestrator::name_map::NameMap;
use log_archive_orchestrator::text::blank;

#[test]
fn cli_overrides_defaults() {
    let value = resolve_u64(Some(7), "DOES_NOT_EXIST", None, None, 42).unwrap();
    assert_eq!(value, 7);
}

#[test]
fn environment_numbers_keep_the_value_or_name_the_failure() {
    assert_eq!(env_number("K", "12", "u64", Ok::<u64, String>(12)).unwrap(), 12);
    match env_number::<u8>("K", "x", "u8", Err("cannot parse".to_string())) {
        Err(CommandError::Internal(m)) => {
            assert_eq!(m, "failed to parse environment variable K='x' as u8: cannot parse")
        }
        other => panic!("{other:?}"),
    }
}

#[test]
fn precedence_is_cli_then_env_then_file_then_default() {
    assert_eq!(first_of(Some(1), Some(2), Some(3), 4), 1);
    assert_eq!(first_of(None, Some(2), Some(3), 4), 2);
    assert_eq!(first_of(None, None, Some(3), 4), 3);
    assert_eq!(first_of::<u8>(None, None, None, 4), 4);
    assert_eq!(resolve_u64(None, "K", Some("+15".to_string()), Some(3), 4).unwrap(), 15);
    assert_eq!(resolve_u8(None, "K", None, Some(3), 4).unwrap(), 3);
    assert_eq!(
        resolve_string(None, None, Some("file".to_string()), "default".to_string()),
        "file"
    );
}

#[test]
fn invalid_numeric_environment_values_are_reported() {
    match resolve_u64(Some(7), "IOX2_LOG_ORCH_CONTROL_TIMEOUT_MS", Some("abc".to_string()), None, 1) {
        Err(CommandError::Internal(m)) => assert_eq!(
            m,
            "failed to parse environment variable IOX2_LOG_ORCH_CONTROL_TIMEOUT_MS='abc' as u64: invalid digit found in string"
        ),
        other => panic!("{other:?}"),
    }
    match resolve_u8(None, "J", Some("300".to_string()), None, 1) {
        Err(CommandError::Internal(m)) => assert_eq!(
            m,
            "failed to parse environment variable J='300' as u8: number too large to fit in target type"
        ),
        other => panic!("{other:?}"),
    }
}

fn empty_layer() -> ConfigLayer {
    ConfigLayer {
        control_service: None,
        recorder_bin: None,
        control_bin: None,
        control_timeout_ms: None,
        reconcile_interval_ms: None,
        backoff_initial_ms: None,
        backoff_max_ms: None,
        backoff_jitter_percent: None,
        backoff_max_window_ms: None,
    }
}

fn empty_env() -> EnvLayer {
    EnvLayer {
        control_service: None,
        recorder_bin: None,
        control_bin: None,
        control_timeout_ms: None,
        reconcile_interval_ms: None,
        backoff_initial_ms: None,
        backoff_factor: None,
        backoff_max_ms: None,
        backoff_jitter_percent: None,
        backoff_max_window_ms: None,
    }
}

#[test]
fn file_env_and_cli_precedence_is_deterministic() {
    let s = resolve_settings(empty_layer(), &empty_env(), empty_layer(), None).unwrap();
    assert_eq!(s.control_service, "iox2/log/archive/orchestrator/control");
    assert_eq!(s.recorder_bin, "iox2-log-recorder");
    assert_eq!(s.control_bin, "iox2-log-control");
    assert_eq!(s.control_timeout_ms, 2000);
    assert_eq!(s.reconcile_interval_ms, 1000);
    assert_eq!(s.backoff_initial_ms, 250);
    assert_eq!(s.backoff_max_ms, 30000);
    assert_eq!(s.backoff_jitter_percent, 20);
    assert_eq!(s.backoff_max_window_ms, 600000);

    let mut cli = empty_layer();
    cli.reconcile_interval_ms = Some(50);
    let mut env = empty_env();
    env.reconcile_interval_ms = Some("60".to_string());
    env.control_bin = Some("env-control".to_string());
    let mut file = empty_layer();
    file.reconcile_interval_ms = Some(70);
    file.control_bin = Some("file-control".to_string());
    file.backoff_max_ms = Some(80);
    let s = resolve_settings(cli, &env, file, None).unwrap();
    assert_eq!(s.reconcile_interval_ms, 50);
    assert_eq!(s.control_bin, "env-control");
    assert_eq!(s.backoff_max_ms, 80);
}

#[test]
fn first_unparsable_environment_setting_is_reported() {
    let mut env = empty_env();
    env.backoff_factor = Some("fast".to_string());
    env.backoff_max_ms = Some("x".to_string());
    match resolve_settings(
        empty_layer(),
        &env,
        empty_layer(),
        Some("invalid float literal".to_string()),
    ) {
        Err(CommandError::Internal(m)) => assert_eq!(
            m,
            "failed to parse environment variable IOX2_LOG_ORCH_BACKOFF_FACTOR='fast' as f64: invalid float literal"
        ),
        other => panic!("{other:?}"),
    }
    match resolve_settings(empty_layer(), &env, empty_layer(), None) {
        Err(CommandError::Internal(m)) => assert!(m.starts_with(
            "failed to parse environment variable IOX2_LOG_ORCH_BACKOFF_MAX_MS='x' as u64"
        )),
        other => panic!("{other:?}"),
    }
}

#[test]
fn default_state_path_lives_under_home() {
    assert_eq!(
        default_state_path(Some("/home/op".to_string())),
        "/home/op/.config/iox2/log-orchestrator/state.toml"
    );
    assert_eq!(
        default_state_path(Some("/".to_string())),
        "/.config/iox2/log-orchestrator/state.toml"
    );
    assert_eq!(default_state_path(None), "/tmp/iox2-log-orchestrator/state.toml");
}

#[test]
fn control_requests_have_a_fixed_command_line() {
    let client = ControlClient { control_bin: "iox2-log-control".to_string(), timeout_ms: 7 };
    assert_eq!(
        client.command_args(ControlAction::Status, "Camera/A"),
        vec!["--format", "JSON", "status", "--service", "Camera/A", "--timeout-ms", "7"]
    );
    assert_eq!(client.command_args(ControlAction::Stop, "Camera/A")[2], "stop");
}

#[test]
fn control_answers_become_live_status() {
    let status = live_status(ControlStatusReport {
        is_paused: true,
        dropped_while_paused: 3,
        paused_since_ns: Some(123),
        committed_records: 42,
        payload_bytes_committed: 4096,
    });
    assert!(status.available);
    assert_eq!(status.is_paused, Some(true));
    assert_eq!(status.dropped_while_paused, Some(3));
    assert_eq!(status.paused_since_ns, Some(123));
    assert_eq!(status.committed_records, Some(42));
    assert_eq!(status.payload_bytes_committed, Some(4096));

    let status = unavailable_status(Some("service unavailable\n".to_string()), b"ignored");
    assert!(!status.available);
    assert_eq!(status.message.as_deref(), Some("service unavailable"));

    let status = unavailable_status(None, b"plain stop failure\n");
    assert!(!status.available);
    assert_eq!(status.message.as_deref(), Some("plain stop failure"));

    let status = unavailable_status(None, b"bad \xff byte");
    assert_eq!(status.message.as_deref(), Some("bad \u{fffd} byte"));
}

#[test]
fn error_codes_and_exit_codes_are_stable() {
    let cases = [
        (CommandError::InvalidInput("a".to_string()), "InvalidInput", 2),
        (CommandError::NotAvailable("b".to_string()), "NotAvailable", 3),
        (CommandError::Internal("c".to_string()), "Internal", 1),
    ];
    for (e, code, exit) in cases {
        assert_eq!(e.code(), code);
        assert_eq!(e.exit_code(), exit);
        let p = e.to_payload();
        assert_eq!(p.error_code, code);
        assert_eq!(p.exit_code, exit);
        let back = CommandError::from_payload(p);
        assert_eq!(back.exit_code(), exit);
        assert_eq!(back.message(), e.message());
    }
    let other = CommandError::from_payload(ErrorPayload {
        error_code: "X".to_string(),
        message: "m".to_string(),
        exit_code: 9,
    });
    assert!(matches!(other, CommandError::Internal(m) if m == "m"));
}

#[test]
fn control_api_versions_are_checked_on_both_sides() {
    assert!(check_request_version(1).is_ok());
    match check_request_version(2) {
        Err(CommandError::InvalidInput(m)) => {
            assert_eq!(m, "unsupported control API version 2, expected 1")
        }
        other => panic!("{other:?}"),
    }
    let env = respond(Err(CommandError::NotAvailable("down".to_string())));
    assert_eq!(env.version, 1);
    match accept_response(env) {
        Err(CommandError::NotAvailable(m)) => assert_eq!(m, "down"),
        other => panic!("{other:?}"),
    }
    let env = respond(Ok(CommandResponse::Shutdown { accepted: true }));
    assert!(matches!(env.response, ResponsePayload::Success(_)));
    assert!(matches!(accept_response(env), Ok(CommandResponse::Shutdown { accepted: true })));
    let env = ResponseEnvelope {
        version: 3,
        response: ResponsePayload::Success(Box::new(CommandResponse::Shutdown { accepted: true })),
    };
    match accept_response(env) {
        Err(CommandError::NotAvailable(m)) => {
            assert_eq!(m, "orchestrator control API version mismatch: daemon=3, client=1")
        }
        other => panic!("{other:?}"),
    }
}

#[test]
fn answers_reach_the_client_unchanged() {
    let failures = [
        CommandError::InvalidInput("unknown service 'x'".to_string()),
        CommandError::NotAvailable("down".to_string()),
        CommandError::Internal("disk full".to_string()),
    ];
    for e in failures {
        let code = e.code();
        let exit = e.exit_code();
        let message = e.message();
        let back = accept_response(respond(Err(e))).unwrap_err();
        assert_eq!(back.code(), code);
        assert_eq!(back.exit_code(), exit);
        assert_eq!(back.message(), message);
    }
    let ok = accept_response(respond(Ok(CommandResponse::Stop {
        service: "A".to_string(),
        stop_requested: true,
    })));
    match ok {
        Ok(CommandResponse::Stop { service, stop_requested }) => {
            assert_eq!(service, "A");
            assert!(stop_requested);
        }
        other => panic!("{other:?}"),
    }
}

#[test]
fn missing_action_is_invalid_input() {
    match require_action(None) {
        Err(e) => {
            assert_eq!(e.code(), "InvalidInput");
            assert_eq!(e.exit_code(), 2);
        }
        Ok(_) => panic!("expected an error"),
    }
    assert!(require_action(Some(&OrchestratorAction::List)).is_ok());
}

#[test]
fn actions_become_requests() {
    assert!(request_from_action(&OrchestratorAction::Serve).is_err());
    let env = request_from_action(&OrchestratorAction::Pause(ServiceOptions {
        service: "svc".to_string(),
    }))
    .unwrap();
    assert_eq!(env.version, 1);
    assert!(matches!(env.command, RequestCommand::Pause(ref r) if r.service == "svc"));
    let env = request_from_action(&OrchestratorAction::Enable(EnableOptions {
        service: "svc".to_string(),
        instance: "default".to_string(),
        storage_path: "/s".to_string(),
        metadata_log_path: "/m".to_string(),
        profile: RecorderProfile::Replay,
        mode: PersistenceMode::Sync,
        cycle_time_ms: 10,
        flush_interval_ms: 100,
        max_disk_bytes: Some(5),
        async_io_backend: None,
        io_uring_queue_depth: None,
        io_submit_batch_max: None,
        io_cqe_batch_max: None,
        io_uring_register_files: None,
        checksum_mode: None,
        out_of_space_policy: None,
        metadata_log_roll_bytes: None,
        metadata_log_max_bytes: None,
    }))
    .unwrap();
    match env.command {
        RequestCommand::Enable(r) => {
            assert_eq!(r.storage_path, "/s");
            assert_eq!(r.profile, RecorderProfile::Replay);
            assert_eq!(r.max_disk_bytes, Some(5));
        }
        other => panic!("{other:?}"),
    }
    match daemon_unreachable("ctl", "timed out") {
        CommandError::NotAvailable(m) => assert_eq!(
            m,
            "orchestrator daemon is not reachable on control service 'ctl': timed out"
        ),
        other => panic!("{other:?}"),
    }
}

#[test]
fn text_primitives() {
    let status = unavailable_with("\u{2003} a b \t".to_string());
    assert_eq!(status.message.as_deref(), Some("a b"));
    assert_eq!(unavailable_with(" \t\u{3000}".to_string()).message.as_deref(), Some(""));
    assert!(blank(" \n\u{85}"));
    assert!(!blank(" x "));
    assert_eq!(resolve_u64(None, "K", Some("+42".to_string()), None, 0).unwrap(), 42);
    assert!(resolve_u64(None, "K", Some(String::new()), None, 0).is_err());
    assert!(resolve_u64(None, "K", Some("-1".to_string()), None, 0).is_err());
    assert_eq!(resolve_u8(None, "K", Some("255".to_string()), None, 0).unwrap(), 255);
    assert!(resolve_u8(None, "K", Some("256".to_string()), None, 0).is_err());
    let mut m: NameMap<u64> = NameMap::new();
    for (i, name) in ["b", "abc", "\u{e9}", "a", "Z", "ab"].iter().enumerate() {
        m.insert(name.to_string(), i as u64);
    }
    let names: Vec<&str> = (0..m.len()).map(|i| m.name_at(i).as_str()).collect();
    assert_eq!(names, vec!["Z", "a", "ab", "abc", "b", "\u{e9}"]);
    match check_request_version(0) {
        Err(CommandError::InvalidInput(msg)) => {
            assert_eq!(msg, "unsupported control API version 0, expected 1")
        }
        other => panic!("{other:?}"),
    }
    let client = ControlClient { control_bin: "c".to_string(), timeout_ms: u64::MAX };
    let args = client.command_args(ControlAction::Status, "A");
    assert_eq!(args.last().map(String::as_str), Some("18446744073709551615"));
}
