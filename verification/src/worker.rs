//! The recorder worker contract: the command line a recorder is started with,
//! derived from the persisted specification alone, and the interface of
//! whatever starts recorders.

use vstd::prelude::*;

use crate::model::{backend_text, checksum_text, mode_text, policy_text, profile_text,
    ServiceSpec, ServiceSpecView};
use crate::text::{bool_text, bool_text_spec, decimal, u64_text};

verus! {

/// Starts recorder workers. The daemon is generic over it so that tests can
/// start recorders in other ways than as processes.
pub trait Runner {
    /// Start the recorder binary `recorder_bin` for `service` with `spec`;
    /// the worker's process id, or the reason it could not be started.
    fn spawn_recorder(&self, recorder_bin: &str, service: &str, spec: &ServiceSpec) -> Result<
        u32,
        String,
    >;
}

/// The texts of a list of arguments.
pub open spec fn texts(args: Seq<String>) -> Seq<Seq<char>> {
    args.map_values(|a: String| a@)
}

/// A flag with its value.
pub open spec fn flag_value(flag: Seq<char>, value: Seq<char>) -> Seq<Seq<char>> {
    seq![flag, value]
}

/// A flag with a 64-bit value when the value is set, nothing otherwise.
pub open spec fn optional_u64_args(flag: Seq<char>, value: Option<u64>) -> Seq<Seq<char>> {
    match value {
        Some(v) => flag_value(flag, decimal(v as nat)),
        None => Seq::empty(),
    }
}

/// A flag with a 32-bit value when the value is set, nothing otherwise.
pub open spec fn optional_u32_args(flag: Seq<char>, value: Option<u32>) -> Seq<Seq<char>> {
    match value {
        Some(v) => flag_value(flag, decimal(v as nat)),
        None => Seq::empty(),
    }
}

/// The arguments every recorder gets: output format, the publish-subscribe
/// pattern, the service, storage and metadata paths, profile, mode, cycle
/// time and flush interval.
pub open spec fn required_args(service: Seq<char>, s: ServiceSpecView) -> Seq<Seq<char>> {
    seq![
        "--format"@,
        "JSON"@,
        "publish-subscribe"@,
        "--service"@,
        service,
        "--storage-path"@,
        s.storage_path,
        "--metadata-log-path"@,
        s.metadata_log_path,
        "--profile"@,
        profile_text(s.profile),
        "--mode"@,
        mode_text(s.mode),
        "--cycle-time-ms"@,
        decimal(s.cycle_time_ms as nat),
        "--flush-interval-ms"@,
        decimal(s.flush_interval_ms as nat),
    ]
}

/// The arguments for the tuning settings that are set, in a fixed order.
pub open spec fn tuning_args(s: ServiceSpecView) -> Seq<Seq<char>> {
    optional_u64_args("--max-disk-bytes"@, s.max_disk_bytes) + match s.async_io_backend {
        Some(b) => flag_value("--async-io-backend"@, backend_text(b)),
        None => Seq::empty(),
    } + optional_u32_args("--io-uring-queue-depth"@, s.io_uring_queue_depth) + optional_u32_args(
        "--io-submit-batch-max"@,
        s.io_submit_batch_max,
    ) + optional_u32_args("--io-cqe-batch-max"@, s.io_cqe_batch_max)
        + match s.io_uring_register_files {
        Some(b) => flag_value("--io-uring-register-files"@, bool_text_spec(b)),
        None => Seq::empty(),
    } + match s.checksum_mode {
        Some(c) => flag_value("--checksum-mode"@, checksum_text(c)),
        None => Seq::empty(),
    } + match s.out_of_space_policy {
        Some(p) => flag_value("--out-of-space-policy"@, policy_text(p)),
        None => Seq::empty(),
    } + optional_u64_args("--metadata-log-roll-bytes"@, s.metadata_log_roll_bytes)
        + optional_u64_args("--metadata-log-max-bytes"@, s.metadata_log_max_bytes)
}

/// The full command line of the recorder of `service`.
pub open spec fn recorder_args_spec(service: Seq<char>, s: ServiceSpecView) -> Seq<Seq<char>> {
    required_args(service, s) + tuning_args(s)
}

fn push_text(args: &mut Vec<String>, value: String)
    ensures
        texts(final(args)@) == texts(old(args)@).push(value@),
{
    args.push(value);
    proof {
        assert(texts(args@) =~= texts(old(args)@).push(value@));
    }
}

/// Append `flag` and `value`.
pub fn push_value(args: &mut Vec<String>, flag: &str, value: &str)
    ensures
        texts(final(args)@) == texts(old(args)@) + flag_value(flag@, value@),
{
    push_text(args, String::from_str(flag));
    push_text(args, String::from_str(value));
    proof {
        assert(texts(args@) =~= texts(old(args)@) + flag_value(flag@, value@));
    }
}

/// Append `flag` and the decimal `value` when the value is set.
pub fn push_optional_u32(args: &mut Vec<String>, flag: &str, value: Option<u32>)
    ensures
        texts(final(args)@) == texts(old(args)@) + optional_u32_args(flag@, value),
{
    match value {
        Some(v) => {
            let t = u64_text(v as u64);
            push_value(args, flag, t.as_str());
        },
        None => {
            assert(texts(args@) =~= texts(args@) + Seq::<Seq<char>>::empty());
        },
    }
}

/// Append `flag` and the decimal `value` when the value is set.
pub fn push_optional_u64(args: &mut Vec<String>, flag: &str, value: Option<u64>)
    ensures
        texts(final(args)@) == texts(old(args)@) + optional_u64_args(flag@, value),
{
    match value {
        Some(v) => {
            let t = u64_text(v);
            push_value(args, flag, t.as_str());
        },
        None => {
            assert(texts(args@) =~= texts(args@) + Seq::<Seq<char>>::empty());
        },
    }
}

fn push_required_args(args: &mut Vec<String>, service: &str, spec: &ServiceSpec)
    requires
        old(args)@.len() == 0,
    ensures
        texts(final(args)@) == required_args(service@, spec@),
{
    push_value(args, "--format", "JSON");
    push_text(args, String::from_str("publish-subscribe"));
    push_value(args, "--service", service);
    push_value(args, "--storage-path", spec.storage_path.as_str());
    push_value(args, "--metadata-log-path", spec.metadata_log_path.as_str());
    push_value(args, "--profile", spec.profile.as_str());
    push_value(args, "--mode", spec.mode.as_str());
    let cycle = u64_text(spec.cycle_time_ms);
    push_value(args, "--cycle-time-ms", cycle.as_str());
    let flush = u64_text(spec.flush_interval_ms);
    push_value(args, "--flush-interval-ms", flush.as_str());
    proof {
        assert(texts(args@) =~= required_args(service@, spec@));
    }
}

fn push_backend(args: &mut Vec<String>, value: Option<crate::model::AsyncIoBackend>)
    ensures
        texts(final(args)@) == texts(old(args)@) + match value {
            Some(b) => flag_value("--async-io-backend"@, backend_text(b)),
            None => Seq::empty(),
        },
{
    match value {
        Some(b) => push_value(args, "--async-io-backend", b.as_str()),
        None => {
            assert(texts(args@) =~= texts(args@) + Seq::<Seq<char>>::empty());
        },
    }
}

fn push_register_files(args: &mut Vec<String>, value: Option<bool>)
    ensures
        texts(final(args)@) == texts(old(args)@) + match value {
            Some(b) => flag_value("--io-uring-register-files"@, bool_text_spec(b)),
            None => Seq::empty(),
        },
{
    match value {
        Some(b) => {
            let t = bool_text(b);
            push_value(args, "--io-uring-register-files", t.as_str());
        },
        None => {
            assert(texts(args@) =~= texts(args@) + Seq::<Seq<char>>::empty());
        },
    }
}

fn push_checksum(args: &mut Vec<String>, value: Option<crate::model::ChecksumMode>)
    ensures
        texts(final(args)@) == texts(old(args)@) + match value {
            Some(c) => flag_value("--checksum-mode"@, checksum_text(c)),
            None => Seq::empty(),
        },
{
    match value {
        Some(c) => push_value(args, "--checksum-mode", c.as_str()),
        None => {
            assert(texts(args@) =~= texts(args@) + Seq::<Seq<char>>::empty());
        },
    }
}

fn push_space_policy(args: &mut Vec<String>, value: Option<crate::model::OutOfSpacePolicy>)
    ensures
        texts(final(args)@) == texts(old(args)@) + match value {
            Some(p) => flag_value("--out-of-space-policy"@, policy_text(p)),
            None => Seq::empty(),
        },
{
    match value {
        Some(p) => push_value(args, "--out-of-space-policy", p.as_str()),
        None => {
            assert(texts(args@) =~= texts(args@) + Seq::<Seq<char>>::empty());
        },
    }
}

proof fn lemma_extend(s0: Seq<Seq<char>>, acc: Seq<Seq<char>>, piece: Seq<Seq<char>>)
    ensures
        (s0 + acc) + piece == s0 + (acc + piece),
{
    assert((s0 + acc) + piece =~= s0 + (acc + piece));
}

fn push_tuning_args(args: &mut Vec<String>, spec: &ServiceSpec)
    ensures
        texts(final(args)@) == texts(old(args)@) + tuning_args(spec@),
{
    let ghost s0 = texts(args@);
    let ghost v = spec@;
    push_optional_u64(args, "--max-disk-bytes", spec.max_disk_bytes);
    let ghost acc = optional_u64_args("--max-disk-bytes"@, v.max_disk_bytes);
    push_backend(args, spec.async_io_backend);
    let ghost piece = match v.async_io_backend {
        Some(b) => flag_value("--async-io-backend"@, backend_text(b)),
        None => Seq::empty(),
    };
    proof { lemma_extend(s0, acc, piece); }
    let ghost acc = acc + piece;
    push_optional_u32(args, "--io-uring-queue-depth", spec.io_uring_queue_depth);
    let ghost piece = optional_u32_args("--io-uring-queue-depth"@, v.io_uring_queue_depth);
    proof { lemma_extend(s0, acc, piece); }
    let ghost acc = acc + piece;
    push_optional_u32(args, "--io-submit-batch-max", spec.io_submit_batch_max);
    let ghost piece = optional_u32_args("--io-submit-batch-max"@, v.io_submit_batch_max);
    proof { lemma_extend(s0, acc, piece); }
    let ghost acc = acc + piece;
    push_optional_u32(args, "--io-cqe-batch-max", spec.io_cqe_batch_max);
    let ghost piece = optional_u32_args("--io-cqe-batch-max"@, v.io_cqe_batch_max);
    proof { lemma_extend(s0, acc, piece); }
    let ghost acc = acc + piece;
    push_register_files(args, spec.io_uring_register_files);
    let ghost piece = match v.io_uring_register_files {
        Some(b) => flag_value("--io-uring-register-files"@, bool_text_spec(b)),
        None => Seq::empty(),
    };
    proof { lemma_extend(s0, acc, piece); }
    let ghost acc = acc + piece;
    push_checksum(args, spec.checksum_mode);
    let ghost piece = match v.checksum_mode {
        Some(c) => flag_value("--checksum-mode"@, checksum_text(c)),
        None => Seq::empty(),
    };
    proof { lemma_extend(s0, acc, piece); }
    let ghost acc = acc + piece;
    push_space_policy(args, spec.out_of_space_policy);
    let ghost piece = match v.out_of_space_policy {
        Some(p) => flag_value("--out-of-space-policy"@, policy_text(p)),
        None => Seq::empty(),
    };
    proof { lemma_extend(s0, acc, piece); }
    let ghost acc = acc + piece;
    push_optional_u64(args, "--metadata-log-roll-bytes", spec.metadata_log_roll_bytes);
    let ghost piece = optional_u64_args("--metadata-log-roll-bytes"@, v.metadata_log_roll_bytes);
    proof { lemma_extend(s0, acc, piece); }
    let ghost acc = acc + piece;
    push_optional_u64(args, "--metadata-log-max-bytes", spec.metadata_log_max_bytes);
    let ghost piece = optional_u64_args("--metadata-log-max-bytes"@, v.metadata_log_max_bytes);
    proof { lemma_extend(s0, acc, piece); }
    let ghost acc = acc + piece;
    assert(acc == tuning_args(v));
}

/// The command line of the recorder of `service`: the same specification
/// always gives the same arguments, in the same order.
pub fn recorder_args(service: &str, spec: &ServiceSpec) -> (args: Vec<String>)
    ensures
        texts(args@) == recorder_args_spec(service@, spec@),
{
    let mut args: Vec<String> = Vec::new();
    push_required_args(&mut args, service, spec);
    push_tuning_args(&mut args, spec);
    args
}

} // verus!
