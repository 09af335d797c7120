//! Configuration precedence: a setting given on the command line wins over
//! the environment, which wins over the configuration file, which wins over
//! the default.

use vstd::prelude::*;
use vstd::string::StrSliceExecFns;

use crate::error::CommandError;
use crate::text::{fits, join2, parse_u64, parse_u8, u64_parse_error, u8_parse_error,
    unsigned_literal};

verus! {

/// Environment variable of the desired-state path.
pub const ENV_STATE_PATH: &'static str = "IOX2_LOG_ORCH_STATE_PATH";

/// Environment variable of the control service name.
pub const ENV_CONTROL_SERVICE: &'static str = "IOX2_LOG_ORCH_CONTROL_SERVICE";

/// Environment variable of the recorder binary.
pub const ENV_RECORDER_BIN: &'static str = "IOX2_LOG_ORCH_RECORDER_BIN";

/// Environment variable of the control binary.
pub const ENV_CONTROL_BIN: &'static str = "IOX2_LOG_ORCH_CONTROL_BIN";

/// Environment variable of the control request timeout.
pub const ENV_CONTROL_TIMEOUT_MS: &'static str = "IOX2_LOG_ORCH_CONTROL_TIMEOUT_MS";

/// Environment variable of the reconcile interval.
pub const ENV_RECONCILE_INTERVAL_MS: &'static str = "IOX2_LOG_ORCH_RECONCILE_INTERVAL_MS";

/// Environment variable of the first retry delay.
pub const ENV_BACKOFF_INITIAL_MS: &'static str = "IOX2_LOG_ORCH_BACKOFF_INITIAL_MS";

/// Environment variable of the retry delay growth factor.
pub const ENV_BACKOFF_FACTOR: &'static str = "IOX2_LOG_ORCH_BACKOFF_FACTOR";

/// Environment variable of the largest retry delay.
pub const ENV_BACKOFF_MAX_MS: &'static str = "IOX2_LOG_ORCH_BACKOFF_MAX_MS";

/// Environment variable of the retry delay jitter.
pub const ENV_BACKOFF_JITTER_PERCENT: &'static str = "IOX2_LOG_ORCH_BACKOFF_JITTER_PERCENT";

/// Environment variable of the retry window.
pub const ENV_BACKOFF_MAX_WINDOW_MS: &'static str = "IOX2_LOG_ORCH_BACKOFF_MAX_WINDOW_MS";

/// The first setting present, in order of precedence.
pub open spec fn pick<T>(cli: Option<T>, env: Option<T>, file: Option<T>, default: T) -> T {
    match cli {
        Some(v) => v,
        None => match env {
            Some(v) => v,
            None => match file {
                Some(v) => v,
                None => default,
            },
        },
    }
}

/// The setting from the command line, else the environment, else the
/// configuration file, else the default.
pub fn first_of<T>(cli: Option<T>, env: Option<T>, file: Option<T>, default: T) -> (r: T)
    ensures
        r == pick(cli, env, file, default),
{
    match cli {
        Some(v) => v,
        None => match env {
            Some(v) => v,
            None => match file {
                Some(v) => v,
                None => default,
            },
        },
    }
}

/// A text setting by precedence.
pub fn resolve_string(
    cli_value: Option<String>,
    env_value: Option<String>,
    file_value: Option<String>,
    default_value: String,
) -> (r: String)
    ensures
        r == pick(cli_value, env_value, file_value, default_value),
{
    first_of(cli_value, env_value, file_value, default_value)
}

/// Whether a numeric environment setting is absent or fits below `max`.
pub open spec fn env_fits(env: Option<String>, max: nat) -> bool {
    match env {
        Some(e) => fits(e@, max),
        None => true,
    }
}

/// The value of a numeric environment setting that fits.
pub open spec fn env_u64(env: Option<String>) -> Option<u64> {
    match env {
        Some(e) => Some(unsigned_literal(e@)->0 as u64),
        None => None,
    }
}

/// The value of a small numeric environment setting that fits.
pub open spec fn env_u8(env: Option<String>) -> Option<u8> {
    match env {
        Some(e) => Some(unsigned_literal(e@)->0 as u8),
        None => None,
    }
}

/// Text of the failure to read environment variable `key` holding `value`
/// as a number of type `ty`, followed by the parse error.
pub open spec fn env_error_message(
    key: Seq<char>,
    value: Seq<char>,
    ty: Seq<char>,
    cause: Seq<char>,
) -> Seq<char> {
    "failed to parse environment variable "@ + key + "='"@ + value + "' as "@ + ty + ": "@ + cause
}

fn env_error(key: &str, value: &str, ty: &str, cause: &str) -> (r: String)
    ensures
        r@ == env_error_message(key@, value@, ty@, cause@),
{
    let mut r = String::from_str("failed to parse environment variable ");
    r.append(key);
    r.append("='");
    r.append(value);
    r.append("' as ");
    r.append(ty);
    r.append(": ");
    r.append(cause);
    proof {
        assert(r@ =~= env_error_message(key@, value@, ty@, cause@));
    }
    r
}

/// A numeric environment setting from the result of parsing its text
/// `value`: the number, or the failure that names the variable `env_key`, its
/// value, the type `ty` and the parse error.
pub fn env_number<T>(env_key: &str, value: &str, ty: &str, parsed: Result<T, String>) -> (r:
    Result<T, CommandError>)
    ensures
        parsed matches Ok(v) ==> r == Ok::<T, CommandError>(v),
        parsed matches Err(cause) ==> (r matches Err(CommandError::Internal(m)) && m@
            == env_error_message(env_key@, value@, ty@, cause@)),
{
    match parsed {
        Ok(v) => Ok(v),
        Err(cause) => Err(CommandError::Internal(env_error(env_key, value, ty, cause.as_str()))),
    }
}

/// A 64-bit setting by precedence. The environment value `env_value` of
/// `env_key` must be a number whenever it is set, even when the command line
/// gives the setting.
pub fn resolve_u64(
    cli_value: Option<u64>,
    env_key: &str,
    env_value: Option<String>,
    file_value: Option<u64>,
    default_value: u64,
) -> (r: Result<u64, CommandError>)
    ensures
        env_fits(env_value, u64::MAX as nat) ==> r == Ok::<u64, CommandError>(
            pick(cli_value, env_u64(env_value), file_value, default_value),
        ),
        !env_fits(env_value, u64::MAX as nat) ==> (r matches Err(CommandError::Internal(m)) && m@
            == env_error_message(
            env_key@,
            env_value->0@,
            "u64"@,
            u64_parse_error(env_value->0@),
        )),
{
    let parsed = match &env_value {
        Some(value) => Some(env_number(env_key, value.as_str(), "u64", parse_u64(value.as_str()))?),
        None => None,
    };
    Ok(first_of(cli_value, parsed, file_value, default_value))
}

/// An 8-bit setting by precedence, with the same rule for the environment
/// as `resolve_u64`.
pub fn resolve_u8(
    cli_value: Option<u8>,
    env_key: &str,
    env_value: Option<String>,
    file_value: Option<u8>,
    default_value: u8,
) -> (r: Result<u8, CommandError>)
    ensures
        env_fits(env_value, u8::MAX as nat) ==> r == Ok::<u8, CommandError>(
            pick(cli_value, env_u8(env_value), file_value, default_value),
        ),
        !env_fits(env_value, u8::MAX as nat) ==> (r matches Err(CommandError::Internal(m)) && m@
            == env_error_message(
            env_key@,
            env_value->0@,
            "u8"@,
            u8_parse_error(env_value->0@),
        )),
{
    let parsed = match &env_value {
        Some(value) => Some(env_number(env_key, value.as_str(), "u8", parse_u8(value.as_str()))?),
        None => None,
    };
    Ok(first_of(cli_value, parsed, file_value, default_value))
}

/// Settings from one source (command line or configuration file); each is
/// absent when the source does not give it.
#[derive(Debug)]
pub struct ConfigLayer {
    pub control_service: Option<String>,
    pub recorder_bin: Option<String>,
    pub control_bin: Option<String>,
    pub control_timeout_ms: Option<u64>,
    pub reconcile_interval_ms: Option<u64>,
    pub backoff_initial_ms: Option<u64>,
    pub backoff_max_ms: Option<u64>,
    pub backoff_jitter_percent: Option<u8>,
    pub backoff_max_window_ms: Option<u64>,
}

/// The raw environment variables of the same settings, and of the retry
/// delay growth factor.
#[derive(Debug)]
pub struct EnvLayer {
    pub control_service: Option<String>,
    pub recorder_bin: Option<String>,
    pub control_bin: Option<String>,
    pub control_timeout_ms: Option<String>,
    pub reconcile_interval_ms: Option<String>,
    pub backoff_initial_ms: Option<String>,
    pub backoff_factor: Option<String>,
    pub backoff_max_ms: Option<String>,
    pub backoff_jitter_percent: Option<String>,
    pub backoff_max_window_ms: Option<String>,
}

/// The resolved settings apart from the state path and the growth factor.
#[derive(Debug)]
pub struct Settings {
    pub control_service: String,
    pub recorder_bin: String,
    pub control_bin: String,
    pub control_timeout_ms: u64,
    pub reconcile_interval_ms: u64,
    pub backoff_initial_ms: u64,
    pub backoff_max_ms: u64,
    pub backoff_jitter_percent: u8,
    pub backoff_max_window_ms: u64,
}

/// Default control service name.
pub open spec fn default_control_service() -> Seq<char> {
    "iox2/log/archive/orchestrator/control"@
}

/// The failure, if any, of reading the numeric environment settings, in
/// the order they are read: timeout, interval, initial delay, growth factor
/// (whose parse error `factor_error` is given), largest delay, jitter,
/// window.
pub open spec fn env_failure(env: EnvLayer, factor_error: Option<Seq<char>>) -> Option<Seq<char>> {
    if !env_fits(env.control_timeout_ms, u64::MAX as nat) {
        Some(
            env_error_message(
                ENV_CONTROL_TIMEOUT_MS@,
                env.control_timeout_ms->0@,
                "u64"@,
                u64_parse_error(env.control_timeout_ms->0@),
            ),
        )
    } else if !env_fits(env.reconcile_interval_ms, u64::MAX as nat) {
        Some(
            env_error_message(
                ENV_RECONCILE_INTERVAL_MS@,
                env.reconcile_interval_ms->0@,
                "u64"@,
                u64_parse_error(env.reconcile_interval_ms->0@),
            ),
        )
    } else if !env_fits(env.backoff_initial_ms, u64::MAX as nat) {
        Some(
            env_error_message(
                ENV_BACKOFF_INITIAL_MS@,
                env.backoff_initial_ms->0@,
                "u64"@,
                u64_parse_error(env.backoff_initial_ms->0@),
            ),
        )
    } else if env.backoff_factor is Some && factor_error is Some {
        Some(
            env_error_message(
                ENV_BACKOFF_FACTOR@,
                env.backoff_factor->0@,
                "f64"@,
                factor_error->0,
            ),
        )
    } else if !env_fits(env.backoff_max_ms, u64::MAX as nat) {
        Some(
            env_error_message(
                ENV_BACKOFF_MAX_MS@,
                env.backoff_max_ms->0@,
                "u64"@,
                u64_parse_error(env.backoff_max_ms->0@),
            ),
        )
    } else if !env_fits(env.backoff_jitter_percent, u8::MAX as nat) {
        Some(
            env_error_message(
                ENV_BACKOFF_JITTER_PERCENT@,
                env.backoff_jitter_percent->0@,
                "u8"@,
                u8_parse_error(env.backoff_jitter_percent->0@),
            ),
        )
    } else if !env_fits(env.backoff_max_window_ms, u64::MAX as nat) {
        Some(
            env_error_message(
                ENV_BACKOFF_MAX_WINDOW_MS@,
                env.backoff_max_window_ms->0@,
                "u64"@,
                u64_parse_error(env.backoff_max_window_ms->0@),
            ),
        )
    } else {
        None
    }
}

/// The views of an optional text.
pub open spec fn opt_view(s: Option<String>) -> Option<Seq<char>> {
    match s {
        Some(t) => Some(t@),
        None => None,
    }
}

/// The view of the text chosen by precedence.
pub open spec fn pick_text(
    cli: Option<String>,
    env: Option<String>,
    file: Option<String>,
    default: Seq<char>,
) -> Seq<char> {
    pick(opt_view(cli), opt_view(env), opt_view(file), default)
}

fn copy_text(s: &Option<String>) -> (r: Option<String>)
    ensures
        opt_view(r) == opt_view(*s),
{
    match s {
        Some(t) => Some(t.clone()),
        None => None,
    }
}

fn text_by_precedence(
    cli: Option<String>,
    env: &Option<String>,
    file: Option<String>,
    default: &str,
) -> (r: String)
    ensures
        r@ == pick_text(cli, *env, file, default@),
{
    let r = resolve_string(cli, copy_text(env), file, String::from_str(default));
    r
}

/// Resolve the settings by precedence, with the defaults of the daemon:
/// control service `iox2/log/archive/orchestrator/control`, binaries
/// `iox2-log-recorder` and `iox2-log-control`, a 2000 ms control timeout, a
/// 1000 ms reconcile interval, and retries starting at 250 ms, growing to at
/// most 30000 ms with 20% jitter within a 600000 ms window. A numeric
/// environment setting that is set must parse; the first that does not is
/// reported. `factor_error` is the parse error of the growth factor's
/// environment setting, if it did not parse.
pub fn resolve_settings(
    cli: ConfigLayer,
    env: &EnvLayer,
    file: ConfigLayer,
    factor_error: Option<String>,
) -> (r: Result<Settings, CommandError>)
    ensures
        env_failure(*env, opt_view(factor_error)) matches Some(msg) ==> (r matches Err(
            CommandError::Internal(m),
        ) && m@ == msg),
        env_failure(*env, opt_view(factor_error)) is None ==> (r matches Ok(s) && s.control_service@
            == pick_text(
            cli.control_service,
            env.control_service,
            file.control_service,
            default_control_service(),
        ) && s.recorder_bin@ == pick_text(
            cli.recorder_bin,
            env.recorder_bin,
            file.recorder_bin,
            "iox2-log-recorder"@,
        ) && s.control_bin@ == pick_text(
            cli.control_bin,
            env.control_bin,
            file.control_bin,
            "iox2-log-control"@,
        ) && s.control_timeout_ms == pick(
            cli.control_timeout_ms,
            env_u64(env.control_timeout_ms),
            file.control_timeout_ms,
            2000,
        ) && s.reconcile_interval_ms == pick(
            cli.reconcile_interval_ms,
            env_u64(env.reconcile_interval_ms),
            file.reconcile_interval_ms,
            1000,
        ) && s.backoff_initial_ms == pick(
            cli.backoff_initial_ms,
            env_u64(env.backoff_initial_ms),
            file.backoff_initial_ms,
            250,
        ) && s.backoff_max_ms == pick(
            cli.backoff_max_ms,
            env_u64(env.backoff_max_ms),
            file.backoff_max_ms,
            30000,
        ) && s.backoff_jitter_percent == pick(
            cli.backoff_jitter_percent,
            env_u8(env.backoff_jitter_percent),
            file.backoff_jitter_percent,
            20,
        ) && s.backoff_max_window_ms == pick(
            cli.backoff_max_window_ms,
            env_u64(env.backoff_max_window_ms),
            file.backoff_max_window_ms,
            600000,
        )),
{
    let control_service = text_by_precedence(
        cli.control_service,
        &env.control_service,
        file.control_service,
        "iox2/log/archive/orchestrator/control",
    );
    let recorder_bin = text_by_precedence(
        cli.recorder_bin,
        &env.recorder_bin,
        file.recorder_bin,
        "iox2-log-recorder",
    );
    let control_bin = text_by_precedence(
        cli.control_bin,
        &env.control_bin,
        file.control_bin,
        "iox2-log-control",
    );
    let control_timeout_ms = resolve_u64(
        cli.control_timeout_ms,
        ENV_CONTROL_TIMEOUT_MS,
        copy_text(&env.control_timeout_ms),
        file.control_timeout_ms,
        2000,
    )?;
    let reconcile_interval_ms = resolve_u64(
        cli.reconcile_interval_ms,
        ENV_RECONCILE_INTERVAL_MS,
        copy_text(&env.reconcile_interval_ms),
        file.reconcile_interval_ms,
        1000,
    )?;
    let backoff_initial_ms = resolve_u64(
        cli.backoff_initial_ms,
        ENV_BACKOFF_INITIAL_MS,
        copy_text(&env.backoff_initial_ms),
        file.backoff_initial_ms,
        250,
    )?;
    match (&env.backoff_factor, &factor_error) {
        (Some(value), Some(cause)) => {
            return Err(
                CommandError::Internal(
                    env_error(ENV_BACKOFF_FACTOR, value.as_str(), "f64", cause.as_str()),
                ),
            );
        },
        _ => {},
    }
    let backoff_max_ms = resolve_u64(
        cli.backoff_max_ms,
        ENV_BACKOFF_MAX_MS,
        copy_text(&env.backoff_max_ms),
        file.backoff_max_ms,
        30000,
    )?;
    let backoff_jitter_percent = resolve_u8(
        cli.backoff_jitter_percent,
        ENV_BACKOFF_JITTER_PERCENT,
        copy_text(&env.backoff_jitter_percent),
        file.backoff_jitter_percent,
        20,
    )?;
    let backoff_max_window_ms = resolve_u64(
        cli.backoff_max_window_ms,
        ENV_BACKOFF_MAX_WINDOW_MS,
        copy_text(&env.backoff_max_window_ms),
        file.backoff_max_window_ms,
        600000,
    )?;
    Ok(
        Settings {
            control_service,
            recorder_bin,
            control_bin,
            control_timeout_ms,
            reconcile_interval_ms,
            backoff_initial_ms,
            backoff_max_ms,
            backoff_jitter_percent,
            backoff_max_window_ms,
        },
    )
}

/// The desired-state file under a home directory: `home` joined with
/// `.config/iox2/log-orchestrator/state.toml`, with one separator between.
pub open spec fn state_path_under(home: Seq<char>) -> Seq<char> {
    let rest = ".config/iox2/log-orchestrator/state.toml"@;
    if home.len() == 0 {
        rest
    } else if home.last() == '/' {
        home + rest
    } else {
        home + "/"@ + rest
    }
}

/// The default desired-state path: under the home directory when there is
/// one, `/tmp/iox2-log-orchestrator/state.toml` otherwise.
pub fn default_state_path(home: Option<String>) -> (r: String)
    ensures
        r@ == match home {
            Some(h) => state_path_under(h@),
            None => "/tmp/iox2-log-orchestrator/state.toml"@,
        },
{
    match home {
        Some(h) => {
            let rest = ".config/iox2/log-orchestrator/state.toml";
            if h.as_str().is_empty() {
                String::from_str(rest)
            } else if ends_with_slash(h.as_str()) {
                join2(h.as_str(), rest)
            } else {
                crate::text::join3(h.as_str(), "/", rest)
            }
        },
        None => String::from_str("/tmp/iox2-log-orchestrator/state.toml"),
    }
}

fn ends_with_slash(s: &str) -> (b: bool)
    requires
        s@.len() > 0,
    ensures
        b == (s@.last() == '/'),
{
    let n = s.unicode_len();
    s.get_char(n - 1) == '/'
}

} // verus!
