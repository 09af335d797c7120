use log_archive_orchestrator::model::{
    AsyncIoBackend, ChecksumMode, OutOfSpacePolicy, PersistenceMode, RecorderProfile, ServiceSpec,
};
use log_archive_orchestrator::worker::recorder_args;

fn spec_with(profile: RecorderProfile, cycle_time_ms: u64) -> ServiceSpec {
    ServiceSpec {
        enabled: true,
        paused: false,
        instance: "default".to_string(),
        generation: 1,
        storage_path: "/tmp/storage".to_string(),
        metadata_log_path: "/tmp/metadata".to_string(),
        profile,
        mode: PersistenceMode::Async,
        cycle_time_ms,
        flush_interval_ms: 100,
        max_disk_bytes: None,
        async_io_backend: None,
        io_uring_queue_depth: None,
        io_submit_batch_max: None,
        io_cqe_batch_max: None,
        io_uring_register_files: None,
        checksum_mode: None,
        out_of_space_policy: None,
        metadata_log_roll_bytes: None,
        metadata_log_max_bytes: None,
    }
}

#[test]
fn recorder_args_are_deterministic() {
    let spec = spec_with(RecorderProfile::Throughput, 5);

    let args = recorder_args("My/Service", &spec);
    assert_eq!(args[0], "--format");
    assert_eq!(args[2], "publish-subscribe");
    assert!(args.contains(&"throughput".to_string()));
    assert!(args.contains(&"async".to_string()));
}

#[test]
fn recorder_args_include_required_fields() {
    let spec = ServiceSpec {
        enabled: true,
        paused: false,
        instance: "default".to_string(),
        generation: 1,
        storage_path: "/tmp/storage".to_string(),
        metadata_log_path: "/tmp/metadata".to_string(),
        profile: RecorderProfile::Balanced,
        mode: PersistenceMode::Async,
        cycle_time_ms: 10,
        flush_interval_ms: 100,
        max_disk_bytes: Some(1024 * 1024),
        async_io_backend: Some(AsyncIoBackend::Blocking),
        io_uring_queue_depth: Some(64),
        io_submit_batch_max: Some(16),
        io_cqe_batch_max: Some(32),
        io_uring_register_files: Some(false),
        checksum_mode: Some(ChecksumMode::Crc32c),
        out_of_space_policy: Some(OutOfSpacePolicy::FailWriter),
        metadata_log_roll_bytes: Some(1024 * 1024),
        metadata_log_max_bytes: Some(16 * 1024 * 1024),
    };

    let args = recorder_args("A/B/C", &spec);
    assert!(args.contains(&"publish-subscribe".to_string()));
    assert!(args.contains(&"--service".to_string()));
    assert!(args.contains(&"A/B/C".to_string()));
    assert!(args.contains(&"--storage-path".to_string()));
    assert!(args.contains(&"--metadata-log-path".to_string()));
    assert!(args.contains(&"--async-io-backend".to_string()));
    assert!(args.contains(&"blocking".to_string()));
    assert!(args.contains(&"--io-uring-register-files".to_string()));
    assert!(args.contains(&"false".to_string()));
    assert!(args.contains(&"--metadata-log-roll-bytes".to_string()));
}

#[test]
fn recorder_args_exact_command_line() {
    let spec = spec_with(RecorderProfile::Durable, 7);
    let args = recorder_args("Cam/A", &spec);
    let expected: Vec<String> = [
        "--format",
        "JSON",
        "publish-subscribe",
        "--service",
        "Cam/A",
        "--storage-path",
        "/tmp/storage",
        "--metadata-log-path",
        "/tmp/metadata",
        "--profile",
        "durable",
        "--mode",
        "async",
        "--cycle-time-ms",
        "7",
        "--flush-interval-ms",
        "100",
    ]
    .iter()
    .map(|s| s.to_string())
    .collect();
    assert_eq!(args, expected);
    assert_eq!(recorder_args("Cam/A", &spec), args);
}

#[test]
fn recorder_args_tuning_flags_in_fixed_order() {
    let mut spec = spec_with(RecorderProfile::Replay, 10);
    spec.mode = PersistenceMode::Sync;
    spec.async_io_backend = Some(AsyncIoBackend::IoUringPreferred);
    spec.io_uring_register_files = Some(true);
    spec.metadata_log_max_bytes = Some(18446744073709551615);
    spec.io_cqe_batch_max = Some(4294967295);
    let args = recorder_args("S", &spec);
    let tail: Vec<&str> = args[17..].iter().map(|s| s.as_str()).collect();
    assert_eq!(
        tail,
        vec![
            "--async-io-backend",
            "io-uring-preferred",
            "--io-cqe-batch-max",
            "4294967295",
            "--io-uring-register-files",
            "true",
            "--metadata-log-max-bytes",
            "18446744073709551615",
        ]
    );
    assert!(args.contains(&"replay".to_string()));
    assert!(args.contains(&"sync".to_string()));
}
