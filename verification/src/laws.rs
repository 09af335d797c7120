//! Properties of the lifecycle commands and of the reconcile decisions that
//! hold across calls.

use vstd::prelude::*;

use crate::control_api::{accepts, answers, CommandResponse, EnableRequestView, ResponseEnvelope};
use crate::error::{code_of, exit_code_of, lemma_error_payload_round_trip, message_of, CommandError};
use crate::model::{spec_issue, RetryTrackerView, ServiceLiveStatusView, ServiceSpecView};
use crate::name_map::{ascending, lemma_ascending_distinct};
use crate::orchestrator::{decide, disable_target, enable_target, flag_changes, flagged,
    in_window, next_generation, observed, pass, pass_step, plus, reset, spawn_recorded, spawn_verdict,
    tracker_of, appended_if, PassState, pass_state, observe_step, spawn_step, stop_step,
    spawn_failure, names, Orchestrator, ReconcileOutcome,
    with_flags, Flag, ReconcileAction, SpawnVerdict, health_of, heartbeat_seen, minus};
use crate::model::ServiceHealth;
use crate::text::{is_blank, lemma_lex_irreflexive, lex_less};
use crate::worker::{flag_value, optional_u32_args, optional_u64_args, recorder_args_spec,
    required_args, tuning_args};
use crate::model::{backend_text, checksum_text, policy_text};
use crate::text::{bool_text_spec, decimal};

verus! {

/// Enable is idempotent: enabling a service a second time with the same
/// request stores the same specification, reports no change and keeps the
/// generation.
pub proof fn enable_is_idempotent(services: Map<Seq<char>, ServiceSpecView>, r: EnableRequestView)
    requires
        !is_blank(r.service),
        spec_issue(r.service, enable_target(services, r).0) is None,
    ensures
        ({
            let (spec, _) = enable_target(services, r);
            let after = services.insert(r.service, spec);
            &&& enable_target(after, r) == (spec, false)
            &&& after.insert(r.service, spec) == after
        }),
{
    let (spec, _) = enable_target(services, r);
    let after = services.insert(r.service, spec);
    assert(after[r.service] == spec);
    assert(with_flags(spec, true, false) == spec);
    assert(after.insert(r.service, spec) =~= after);
}

/// Generations only grow: enable keeps the generation of a service whose
/// configuration it does not change, and raises it by one (saturating) when
/// it does; a service enabled for the first time gets generation 1.
pub proof fn enable_generation_is_monotonic(
    services: Map<Seq<char>, ServiceSpecView>,
    r: EnableRequestView,
)
    ensures
        ({
            let (spec, changed) = enable_target(services, r);
            &&& services.contains_key(r.service) && !changed ==> spec.generation
                == services[r.service].generation
            &&& services.contains_key(r.service) && changed ==> spec.generation == next_generation(
                services[r.service].generation,
            )
            &&& services.contains_key(r.service) ==> spec.generation
                >= services[r.service].generation
            &&& !services.contains_key(r.service) ==> spec.generation == 1 && changed
        }),
{
}

/// Disable is idempotent: disabling twice changes nothing the second time
/// and reports no change.
pub proof fn disable_is_idempotent(services: Map<Seq<char>, ServiceSpecView>, k: Seq<char>)
    ensures
        ({
            let once = disable_target(services, k).0;
            disable_target(once, k) == (once, false)
        }),
{
    let once = disable_target(services, k).0;
    if services.contains_key(k) {
        assert(once[k] == with_flags(services[k], false, false));
        assert(with_flags(once[k], false, false) == once[k]);
        assert(once.insert(k, once[k]) =~= once);
    }
}

/// Disable clears intent and pause, and touches no other service.
pub proof fn disable_clears_intent(
    services: Map<Seq<char>, ServiceSpecView>,
    k: Seq<char>,
    other: Seq<char>,
)
    requires
        services.contains_key(k),
        other != k,
    ensures
        ({
            let after = disable_target(services, k).0;
            &&& !after[k].enabled && !after[k].paused
            &&& after.contains_key(other) == services.contains_key(other)
            &&& services.contains_key(other) ==> after[other] == services[other]
        }),
{
}

/// Pause, resume and start are idempotent: applied twice, the second time
/// changes nothing and reports no change.
pub proof fn flag_commands_are_idempotent(s: ServiceSpecView, f: Flag)
    ensures
        flagged(flagged(s, f), f) == flagged(s, f),
        !flag_changes(flagged(s, f), f),
{
}

/// Pause holds a service back without clearing whether it is enabled;
/// resume releases it, again without touching whether it is enabled; start
/// leaves the service enabled and not paused.
pub proof fn flag_commands_keep_or_force_intent(s: ServiceSpecView)
    ensures
        flagged(s, Flag::Paused).enabled == s.enabled && flagged(s, Flag::Paused).paused,
        flagged(s, Flag::Resumed).enabled == s.enabled && !flagged(s, Flag::Resumed).paused,
        flagged(s, Flag::Started).enabled && !flagged(s, Flag::Started).paused,
        flagged(flagged(s, Flag::Paused), Flag::Resumed) == with_flags(s, s.enabled, false),
        flagged(s, Flag::Paused).instance == s.instance && flagged(s, Flag::Paused).generation
            == s.generation,
{
}

/// Reconcile starts only missing wanted workers: it decides to start a
/// recorder only for a service that is enabled, not paused, not live, not
/// degraded and whose retry is due; a live recorder is never started again.
pub proof fn reconcile_spawns_only_missing_enabled(
    s: ServiceSpecView,
    t: RetryTrackerView,
    available: bool,
    now: u64,
)
    ensures
        decide(s, t, available, now) == ReconcileAction::Spawn ==> s.enabled && !s.paused
            && !available && !t.degraded && (t.next_retry_at is None || t.next_retry_at->0
            <= now),
        available ==> decide(s, t, available, now) != ReconcileAction::Spawn,
        decide(s, t, available, now) == ReconcileAction::Stop ==> available && !(s.enabled
            && !s.paused),
{
}

/// After an attempt within the retry window, the next attempt waits for the
/// backoff delay: a probe that finds the recorder still missing before the
/// delay has passed leads to no new start.
pub proof fn spawn_waits_for_backoff(
    s: ServiceSpecView,
    t: RetryTrackerView,
    now: u64,
    delay_ms: u64,
    window_ms: u64,
    failure: Option<Seq<char>>,
    message: Option<Seq<char>>,
    later: u64,
)
    requires
        in_window(t, now, window_ms),
        later < plus(now, delay_ms),
    ensures
        decide(
            s,
            observed(spawn_recorded(t, now, delay_ms, window_ms, failure), false, message, later),
            false,
            later,
        ) != ReconcileAction::Spawn,
{
}

/// Retries are bounded: an attempt after the retry window has elapsed marks
/// the service degraded, and a degraded service whose recorder stays missing
/// is not started again.
pub proof fn retry_window_exhaustion_degrades(
    s: ServiceSpecView,
    t: RetryTrackerView,
    now: u64,
    delay_ms: u64,
    window_ms: u64,
    failure: Option<Seq<char>>,
    message: Option<Seq<char>>,
    later: u64,
)
    requires
        !in_window(t, now, window_ms),
    ensures
        spawn_recorded(t, now, delay_ms, window_ms, failure).degraded,
        spawn_verdict(t, now, window_ms, failure is Some) == SpawnVerdict::Degraded,
        decide(
            s,
            observed(spawn_recorded(t, now, delay_ms, window_ms, failure), false, message, later),
            false,
            later,
        ) != ReconcileAction::Spawn,
{
}

/// A live recorder clears the retry state: no attempts, not degraded.
pub proof fn live_recorder_recovers(t: RetryTrackerView, message: Option<Seq<char>>, now: u64)
    ensures
        observed(t, true, message, now).attempts == 0,
        !observed(t, true, message, now).degraded,
        observed(t, true, message, now).last_heartbeat_at == Some(now),
        observed(t, true, message, now).last_error is None,
{
}

/// A command that resets the retry state (enable, resume, start) gives a
/// wanted service whose recorder is missing an immediate start.
pub proof fn reset_allows_immediate_start(
    s: ServiceSpecView,
    t: RetryTrackerView,
    message: Option<Seq<char>>,
    now: u64,
)
    requires
        s.enabled,
        !s.paused,
    ensures
        decide(s, observed(reset(t), false, message, now), false, now) == ReconcileAction::Spawn,
{
}

/// The recorder command line is a function of the service name and its
/// persisted specification: equal inputs give equal arguments.
pub proof fn recorder_args_depend_only_on_spec(
    service: Seq<char>,
    a: ServiceSpecView,
    b: ServiceSpecView,
)
    requires
        a == b,
    ensures
        recorder_args_spec(service, a) == recorder_args_spec(service, b),
{
}

/// What the daemon answers is what the client reports: a successful result
/// arrives unchanged, and a failure arrives as the same kind of failure with
/// the same code, text and exit code.
pub proof fn answer_reaches_client(
    result: Result<CommandResponse, CommandError>,
    env: ResponseEnvelope,
    r: Result<CommandResponse, CommandError>,
)
    requires
        answers(result, env),
        accepts(env, r),
    ensures
        result is Ok ==> r == result,
        result is Err ==> r is Err && exit_code_of(r->Err_0) == exit_code_of(result->Err_0)
            && code_of(r->Err_0) == code_of(result->Err_0) && message_of(r->Err_0) == message_of(
            result->Err_0,
        ),
{
    if result is Err {
        let p = env.response->Error_0;
        lemma_error_payload_round_trip(result->Err_0, p, r->Err_0);
    }
}

/// No name is on both lists.
pub open spec fn disjoint(a: Seq<Seq<char>>, b: Seq<Seq<char>>) -> bool {
    forall|p: int, q: int| 0 <= p < a.len() && 0 <= q < b.len() ==> #[trigger] a[p] != #[trigger] b[q]
}

/// `x` is one of the first `i` keys.
pub open spec fn key_before(keys: Seq<Seq<char>>, i: int, x: Seq<char>) -> bool {
    exists|j: int| 0 <= j < i && #[trigger] keys[j] == x
}

/// Every name on `l` is one of the first `i` keys.
pub open spec fn among(l: Seq<Seq<char>>, keys: Seq<Seq<char>>, i: int) -> bool {
    forall|p: int| 0 <= p < l.len() ==> key_before(keys, i, #[trigger] l[p])
}

/// Reconcile stops the recorder of a service that is not wanted (disabled
/// or paused) and is live.
pub open spec fn stops(s: ServiceSpecView, available: bool) -> bool {
    available && !(s.enabled && !s.paused)
}

/// Reconcile finds a wanted service running when its recorder is live.
pub open spec fn keeps_running(s: ServiceSpecView, available: bool) -> bool {
    available && s.enabled && !s.paused
}

/// The pass before it has looked at any service.
pub open spec fn pass_start(trackers: Map<Seq<char>, RetryTrackerView>) -> PassState {
    PassState {
        trackers,
        started: Seq::empty(),
        stopped: Seq::empty(),
        running: Seq::empty(),
        degraded: Seq::empty(),
    }
}

/// What holds of a pass after its first `i` services.
pub open spec fn pass_inv(
    st: PassState,
    keys: Seq<Seq<char>>,
    specs: Seq<ServiceSpecView>,
    lives: Seq<ServiceLiveStatusView>,
    i: int,
) -> bool {
    &&& ascending(st.started) && ascending(st.stopped) && ascending(st.running) && ascending(
        st.degraded,
    )
    &&& among(st.started, keys, i) && among(st.stopped, keys, i) && among(st.running, keys, i)
        && among(st.degraded, keys, i)
    &&& disjoint(st.started, st.stopped) && disjoint(st.started, st.running) && disjoint(
        st.started,
        st.degraded,
    ) && disjoint(st.stopped, st.running) && disjoint(st.stopped, st.degraded) && disjoint(
        st.running,
        st.degraded,
    )
    &&& forall|j: int|
        0 <= j < i ==> (#[trigger] st.stopped.contains(keys[j]) <==> stops(
            specs[j],
            lives[j].available,
        ))
    &&& forall|j: int|
        0 <= j < i ==> (#[trigger] st.running.contains(keys[j]) <==> keeps_running(
            specs[j],
            lives[j].available,
        ))
}

proof fn lemma_push_key(l: Seq<Seq<char>>, keys: Seq<Seq<char>>, i: int, c: bool)
    requires
        ascending(keys),
        0 <= i < keys.len(),
        ascending(l),
        among(l, keys, i),
    ensures
        forall|p: int| 0 <= p < l.len() ==> lex_less(#[trigger] l[p], keys[i]),
        !l.contains(keys[i]),
        ascending(appended_if(l, c, keys[i])),
        among(appended_if(l, c, keys[i]), keys, i + 1),
        appended_if(l, c, keys[i]).contains(keys[i]) == c,
        forall|x: Seq<char>|
            x != keys[i] ==> (#[trigger] appended_if(l, c, keys[i]).contains(x) == l.contains(x)),
{
    let k = keys[i];
    assert forall|p: int| 0 <= p < l.len() implies lex_less(#[trigger] l[p], k) by {
        let j = choose|j: int| 0 <= j < i && #[trigger] keys[j] == l[p];
        assert(lex_less(keys[j], keys[i]));
    }
    if l.contains(k) {
        let p = choose|p: int| 0 <= p < l.len() && l[p] == k;
        lemma_lex_irreflexive(k);
    }
    let m = appended_if(l, c, k);
    if c {
        assert(m[l.len() as int] == k);
        assert forall|p: int, q: int| 0 <= p < q < m.len() implies lex_less(
            #[trigger] m[p],
            #[trigger] m[q],
        ) by {
            if q < l.len() {
                assert(m[p] == l[p] && m[q] == l[q]);
            } else {
                assert(m[p] == l[p]);
            }
        }
        assert forall|p: int| 0 <= p < m.len() implies key_before(keys, i + 1, #[trigger] m[p]) by {
            if p < l.len() {
                assert(m[p] == l[p]);
                let j = choose|j: int| 0 <= j < i && #[trigger] keys[j] == l[p];
                assert(keys[j] == m[p]);
            } else {
                assert(keys[i] == m[p]);
            }
        }
        assert forall|x: Seq<char>| x != k implies (#[trigger] m.contains(x) == l.contains(x)) by {
            if m.contains(x) {
                let p = choose|p: int| 0 <= p < m.len() && m[p] == x;
                assert(p < l.len());
                assert(l[p] == x);
            }
            if l.contains(x) {
                let p = choose|p: int| 0 <= p < l.len() && l[p] == x;
                assert(m[p] == x);
            }
        }
    } else {
        assert forall|p: int| 0 <= p < m.len() implies key_before(keys, i + 1, #[trigger] m[p]) by {
            let j = choose|j: int| 0 <= j < i && #[trigger] keys[j] == l[p];
            assert(keys[j] == m[p]);
        }
    }
}

proof fn lemma_disjoint_push(
    a: Seq<Seq<char>>,
    b: Seq<Seq<char>>,
    keys: Seq<Seq<char>>,
    i: int,
    ca: bool,
    cb: bool,
)
    requires
        ascending(keys),
        0 <= i < keys.len(),
        ascending(a),
        among(a, keys, i),
        ascending(b),
        among(b, keys, i),
        disjoint(a, b),
        !(ca && cb),
    ensures
        disjoint(appended_if(a, ca, keys[i]), appended_if(b, cb, keys[i])),
{
    lemma_push_key(a, keys, i, ca);
    lemma_push_key(b, keys, i, cb);
    let k = keys[i];
    let a2 = appended_if(a, ca, k);
    let b2 = appended_if(b, cb, k);
    assert forall|p: int, q: int| 0 <= p < a2.len() && 0 <= q < b2.len() implies #[trigger] a2[p]
        != #[trigger] b2[q] by {
        if p < a.len() && q < b.len() {
            assert(a2[p] == a[p] && b2[q] == b[q]);
        } else if p < a.len() {
            assert(a2[p] == a[p] && b2[q] == k);
            assert(lex_less(a[p], k));
            lemma_lex_irreflexive(k);
        } else {
            assert(a2[p] == k && b2[q] == b[q]);
            assert(lex_less(b[q], k));
            lemma_lex_irreflexive(k);
        }
    }
}

proof fn lemma_step_lists(
    st: PassState,
    k: Seq<char>,
    s: ServiceSpecView,
    live: ServiceLiveStatusView,
    failure: Option<Seq<char>>,
    delay_ms: u64,
    now: u64,
    window_ms: u64,
) -> (c: (bool, bool, bool, bool))
    ensures
        ({
            let after = pass_step(st, k, s, live, failure, delay_ms, now, window_ms);
            &&& after.started == appended_if(st.started, c.0, k)
            &&& after.stopped == appended_if(st.stopped, c.1, k)
            &&& after.running == appended_if(st.running, c.2, k)
            &&& after.degraded == appended_if(st.degraded, c.3, k)
            &&& c.1 == stops(s, live.available)
            &&& c.2 == keeps_running(s, live.available)
            &&& !(c.0 && c.1) && !(c.0 && c.2) && !(c.0 && c.3) && !(c.1 && c.2) && !(c.1 && c.3)
                && !(c.2 && c.3)
        }),
{
    let t = observed(tracker_of(st.trackers, k), live.available, live.message, now);
    let a = decide(s, t, live.available, now);
    let v = spawn_verdict(t, now, window_ms, failure is Some);
    let spawned = a == ReconcileAction::Spawn;
    (
        spawned && v == SpawnVerdict::Started,
        a == ReconcileAction::Stop,
        a == ReconcileAction::AlreadyRunning,
        a == ReconcileAction::Degraded || (spawned && v == SpawnVerdict::Degraded),
    )
}

proof fn lemma_pass_inv(
    trackers: Map<Seq<char>, RetryTrackerView>,
    keys: Seq<Seq<char>>,
    specs: Seq<ServiceSpecView>,
    lives: Seq<ServiceLiveStatusView>,
    failures: Seq<Option<Seq<char>>>,
    delays: Seq<u64>,
    now: u64,
    window_ms: u64,
    n: nat,
)
    requires
        ascending(keys),
        n <= keys.len(),
    ensures
        pass_inv(
            pass(pass_start(trackers), keys, specs, lives, failures, delays, now, window_ms, n),
            keys,
            specs,
            lives,
            n as int,
        ),
    decreases n,
{
    if n > 0 {
        let i = n - 1;
        lemma_pass_inv(trackers, keys, specs, lives, failures, delays, now, window_ms, (n - 1) as nat);
        let prev = pass(
            pass_start(trackers),
            keys,
            specs,
            lives,
            failures,
            delays,
            now,
            window_ms,
            (n - 1) as nat,
        );
        let k = keys[i];
        let c = lemma_step_lists(prev, k, specs[i], lives[i], failures[i], delays[i], now, window_ms);
        let after = pass_step(prev, k, specs[i], lives[i], failures[i], delays[i], now, window_ms);
        lemma_push_key(prev.started, keys, i, c.0);
        lemma_push_key(prev.stopped, keys, i, c.1);
        lemma_push_key(prev.running, keys, i, c.2);
        lemma_push_key(prev.degraded, keys, i, c.3);
        lemma_disjoint_push(prev.started, prev.stopped, keys, i, c.0, c.1);
        lemma_disjoint_push(prev.started, prev.running, keys, i, c.0, c.2);
        lemma_disjoint_push(prev.started, prev.degraded, keys, i, c.0, c.3);
        lemma_disjoint_push(prev.stopped, prev.running, keys, i, c.1, c.2);
        lemma_disjoint_push(prev.stopped, prev.degraded, keys, i, c.1, c.3);
        lemma_disjoint_push(prev.running, prev.degraded, keys, i, c.2, c.3);
        assert forall|j: int| 0 <= j < n implies (#[trigger] after.stopped.contains(keys[j])
            <==> stops(specs[j], lives[j].available)) by {
            if j < i {
                lemma_ascending_distinct(keys, j, i);
                assert(prev.stopped.contains(keys[j]) <==> stops(specs[j], lives[j].available));
            }
        }
        assert forall|j: int| 0 <= j < n implies (#[trigger] after.running.contains(keys[j])
            <==> keeps_running(specs[j], lives[j].available)) by {
            if j < i {
                lemma_ascending_distinct(keys, j, i);
                assert(prev.running.contains(keys[j]) <==> keeps_running(
                    specs[j],
                    lives[j].available,
                ));
            }
        }
    } else {
        let st = pass_start(trackers);
        assert(st.started.len() == 0);
    }
}

/// A reconcile pass over the services in name order keeps its four lists in
/// name order, puts each service on at most one of them, and puts on them
/// only services it looked at. It stops exactly the services that are not
/// wanted (disabled or paused) but live, and reports as running exactly the
/// wanted services that are live: a service whose recorder is not live is
/// never asked to stop.
pub proof fn reconcile_pass_lists(
    trackers: Map<Seq<char>, RetryTrackerView>,
    keys: Seq<Seq<char>>,
    specs: Seq<ServiceSpecView>,
    lives: Seq<ServiceLiveStatusView>,
    failures: Seq<Option<Seq<char>>>,
    delays: Seq<u64>,
    now: u64,
    window_ms: u64,
)
    requires
        ascending(keys),
    ensures
        ({
            let r = pass(
                pass_start(trackers),
                keys,
                specs,
                lives,
                failures,
                delays,
                now,
                window_ms,
                keys.len(),
            );
            &&& ascending(r.started) && ascending(r.stopped) && ascending(r.running) && ascending(
                r.degraded,
            )
            &&& disjoint(r.started, r.stopped) && disjoint(r.started, r.running) && disjoint(
                r.started,
                r.degraded,
            ) && disjoint(r.stopped, r.running) && disjoint(r.stopped, r.degraded) && disjoint(
                r.running,
                r.degraded,
            )
            &&& among(r.started, keys, keys.len() as int) && among(r.stopped, keys, keys.len() as int)
                && among(r.running, keys, keys.len() as int) && among(
                r.degraded,
                keys,
                keys.len() as int,
            )
            &&& forall|j: int|
                0 <= j < keys.len() ==> (#[trigger] r.stopped.contains(keys[j]) <==> stops(
                    specs[j],
                    lives[j].available,
                ))
            &&& forall|j: int|
                0 <= j < keys.len() ==> (#[trigger] r.running.contains(keys[j]) <==> keeps_running(
                    specs[j],
                    lives[j].available,
                ))
        }),
{
    lemma_pass_inv(trackers, keys, specs, lives, failures, delays, now, window_ms, keys.len());
}

/// A second disable requests no stop once the recorder is gone: it reports
/// no change and keeps the state, and the reconcile pass that follows it
/// does not stop the service when its probe finds the recorder not live.
pub proof fn second_disable_requests_no_stop(
    services: Map<Seq<char>, ServiceSpecView>,
    k: Seq<char>,
    trackers: Map<Seq<char>, RetryTrackerView>,
    keys: Seq<Seq<char>>,
    specs: Seq<ServiceSpecView>,
    lives: Seq<ServiceLiveStatusView>,
    failures: Seq<Option<Seq<char>>>,
    delays: Seq<u64>,
    now: u64,
    window_ms: u64,
    i: int,
)
    requires
        ascending(keys),
        0 <= i < keys.len(),
        keys[i] == k,
        specs[i] == disable_target(disable_target(services, k).0, k).0[k],
        !lives[i].available,
    ensures
        ({
            let once = disable_target(services, k).0;
            &&& disable_target(once, k) == (once, false)
            &&& !pass(
                pass_start(trackers),
                keys,
                specs,
                lives,
                failures,
                delays,
                now,
                window_ms,
                keys.len(),
            ).stopped.contains(k)
        }),
{
    disable_is_idempotent(services, k);
    reconcile_pass_lists(trackers, keys, specs, lives, failures, delays, now, window_ms);
}

/// The calls reconcile makes for one service (`observe`, then `record_spawn`
/// when it decides to start the recorder, or `record_stop` when it decides
/// to stop it, and nothing more otherwise) take the pass from one state to
/// the next as `pass_step` says, and leave the desired state as it was.
pub proof fn reconcile_calls_make_pass_step(
    o0: Orchestrator,
    out0: ReconcileOutcome,
    o1: Orchestrator,
    out1: ReconcileOutcome,
    o2: Orchestrator,
    out2: ReconcileOutcome,
    i: int,
    live: ServiceLiveStatusView,
    now: u64,
    action: ReconcileAction,
    spawned: Result<u32, String>,
    verdict: SpawnVerdict,
    delay_ms: u64,
    window_ms: u64,
)
    requires
        observe_step(o0, out0, o1, out1, i, live, now, action),
        action == ReconcileAction::Spawn ==> spawn_step(
            o1,
            out1,
            o2,
            out2,
            i,
            now,
            delay_ms,
            window_ms,
            spawned,
            verdict,
        ),
        action == ReconcileAction::Stop ==> stop_step(o1, out1, o2, out2, i),
        action != ReconcileAction::Spawn && action != ReconcileAction::Stop ==> o2 == o1 && out2
            == out1,
    ensures
        o2.state == o0.state,
        pass_state(o2, out2) == pass_step(
            pass_state(o0, out0),
            o0.state.services.keys()[i],
            o0.state.services.values()[i]@,
            live,
            spawn_failure(spawned),
            delay_ms,
            now,
            window_ms,
        ),
{
    let target = pass_step(
        pass_state(o0, out0),
        o0.state.services.keys()[i],
        o0.state.services.values()[i]@,
        live,
        spawn_failure(spawned),
        delay_ms,
        now,
        window_ms,
    );
    assert(pass_state(o2, out2).trackers =~= target.trackers);
}

/// A sequence of reconcile calls over the services in order, from an empty
/// outcome, makes the pass: state `j + 1` comes from state `j` by the calls
/// for service `j` (`observe` into the middle state `mids[j]`, then
/// `record_spawn` with start result `spawns[j]` or `record_stop` as decided),
/// and after all services the bookkeeping and the four lists are those of
/// `pass`, with the desired state unchanged.
pub proof fn reconcile_calls_make_pass(
    os: Seq<Orchestrator>,
    outs: Seq<ReconcileOutcome>,
    mids: Seq<Orchestrator>,
    mid_outs: Seq<ReconcileOutcome>,
    lives: Seq<ServiceLiveStatusView>,
    actions: Seq<ReconcileAction>,
    spawns: Seq<Result<u32, String>>,
    verdicts: Seq<SpawnVerdict>,
    delays: Seq<u64>,
    now: u64,
    window_ms: u64,
)
    requires
        os.len() == os[0].state.services.keys().len() + 1,
        outs.len() == os.len(),
        outs[0].started_services@.len() == 0,
        outs[0].stopped_services@.len() == 0,
        outs[0].already_running_services@.len() == 0,
        outs[0].degraded_services@.len() == 0,
        forall|j: int|
            #![trigger mids[j]]
            0 <= j < os.len() - 1 ==> {
                &&& observe_step(os[j], outs[j], mids[j], mid_outs[j], j, lives[j], now, actions[j])
                &&& actions[j] == ReconcileAction::Spawn ==> spawn_step(
                    mids[j],
                    mid_outs[j],
                    os[j + 1],
                    outs[j + 1],
                    j,
                    now,
                    delays[j],
                    window_ms,
                    spawns[j],
                    verdicts[j],
                )
                &&& actions[j] == ReconcileAction::Stop ==> stop_step(
                    mids[j],
                    mid_outs[j],
                    os[j + 1],
                    outs[j + 1],
                    j,
                )
                &&& actions[j] != ReconcileAction::Spawn && actions[j] != ReconcileAction::Stop
                    ==> os[j + 1] == mids[j] && outs[j + 1] == mid_outs[j]
            },
    ensures
        ({
            let n = os[0].state.services.keys().len();
            &&& os[n as int].state == os[0].state
            &&& pass_state(os[n as int], outs[n as int]) == pass(
                pass_start(os[0].trackers()),
                os[0].state.services.keys(),
                Seq::new(n, |j: int| os[0].state.services.values()[j]@),
                lives,
                Seq::new(n, |j: int| spawn_failure(spawns[j])),
                delays,
                now,
                window_ms,
                n,
            )
        }),
{
    let n = os[0].state.services.keys().len();
    lemma_calls_prefix(
        os,
        outs,
        mids,
        mid_outs,
        lives,
        actions,
        spawns,
        verdicts,
        delays,
        now,
        window_ms,
        n,
    );
}

proof fn lemma_calls_prefix(
    os: Seq<Orchestrator>,
    outs: Seq<ReconcileOutcome>,
    mids: Seq<Orchestrator>,
    mid_outs: Seq<ReconcileOutcome>,
    lives: Seq<ServiceLiveStatusView>,
    actions: Seq<ReconcileAction>,
    spawns: Seq<Result<u32, String>>,
    verdicts: Seq<SpawnVerdict>,
    delays: Seq<u64>,
    now: u64,
    window_ms: u64,
    m: nat,
)
    requires
        os.len() == os[0].state.services.keys().len() + 1,
        outs.len() == os.len(),
        m < os.len(),
        outs[0].started_services@.len() == 0,
        outs[0].stopped_services@.len() == 0,
        outs[0].already_running_services@.len() == 0,
        outs[0].degraded_services@.len() == 0,
        forall|j: int|
            #![trigger mids[j]]
            0 <= j < os.len() - 1 ==> {
                &&& observe_step(os[j], outs[j], mids[j], mid_outs[j], j, lives[j], now, actions[j])
                &&& actions[j] == ReconcileAction::Spawn ==> spawn_step(
                    mids[j],
                    mid_outs[j],
                    os[j + 1],
                    outs[j + 1],
                    j,
                    now,
                    delays[j],
                    window_ms,
                    spawns[j],
                    verdicts[j],
                )
                &&& actions[j] == ReconcileAction::Stop ==> stop_step(
                    mids[j],
                    mid_outs[j],
                    os[j + 1],
                    outs[j + 1],
                    j,
                )
                &&& actions[j] != ReconcileAction::Spawn && actions[j] != ReconcileAction::Stop
                    ==> os[j + 1] == mids[j] && outs[j + 1] == mid_outs[j]
            },
    ensures
        ({
            let n = os[0].state.services.keys().len();
            &&& os[m as int].state == os[0].state
            &&& pass_state(os[m as int], outs[m as int]) == pass(
                pass_start(os[0].trackers()),
                os[0].state.services.keys(),
                Seq::new(n, |j: int| os[0].state.services.values()[j]@),
                lives,
                Seq::new(n, |j: int| spawn_failure(spawns[j])),
                delays,
                now,
                window_ms,
                m,
            )
        }),
    decreases m,
{
    let n = os[0].state.services.keys().len();
    if m == 0 {
        assert(names(outs[0].started_services@) =~= Seq::<Seq<char>>::empty());
        assert(names(outs[0].stopped_services@) =~= Seq::<Seq<char>>::empty());
        assert(names(outs[0].already_running_services@) =~= Seq::<Seq<char>>::empty());
        assert(names(outs[0].degraded_services@) =~= Seq::<Seq<char>>::empty());
    } else {
        let j = m - 1;
        lemma_calls_prefix(
            os,
            outs,
            mids,
            mid_outs,
            lives,
            actions,
            spawns,
            verdicts,
            delays,
            now,
            window_ms,
            (m - 1) as nat,
        );
        let _ = mids[j];
        reconcile_calls_make_pass_step(
            os[j],
            outs[j],
            mids[j],
            mid_outs[j],
            os[j + 1],
            outs[j + 1],
            j,
            lives[j],
            now,
            actions[j],
            spawns[j],
            verdicts[j],
            delays[j],
            window_ms,
        );
    }
}

/// A live recorder that recovers a service (one that had attempts or was
/// degraded) closes its retry window: no attempts, not degraded, no window
/// open. The next start attempt, whenever it comes and whether it fails or
/// not, then opens a fresh window at its own time and is never judged
/// degraded.
pub proof fn recovery_opens_a_fresh_retry_window(
    t: RetryTrackerView,
    m1: Option<Seq<char>>,
    now: u64,
    m2: Option<Seq<char>>,
    later: u64,
    delay_ms: u64,
    window_ms: u64,
    failure: Option<Seq<char>>,
)
    requires
        t.attempts > 0 || t.degraded,
    ensures
        observed(t, true, m1, now).first_failure_at is None,
        observed(t, true, m1, now).next_retry_at is None,
        observed(t, true, m1, now).attempts == 0,
        !observed(t, true, m1, now).degraded,
        ({
            let t2 = observed(observed(t, true, m1, now), false, m2, later);
            &&& in_window(t2, later, window_ms)
            &&& spawn_verdict(t2, later, window_ms, failure is Some) != SpawnVerdict::Degraded
            &&& !spawn_recorded(t2, later, delay_ms, window_ms, failure).degraded
            &&& spawn_recorded(t2, later, delay_ms, window_ms, failure).first_failure_at == Some(
                later,
            )
            &&& spawn_recorded(t2, later, delay_ms, window_ms, failure).attempts == 1
        }),
{
}

/// The first start attempt of a retry window (no window open yet) is never
/// judged degraded: it opens the window at its own time.
pub proof fn first_attempt_opens_the_window(
    t: RetryTrackerView,
    now: u64,
    delay_ms: u64,
    window_ms: u64,
    failure: Option<Seq<char>>,
)
    requires
        t.first_failure_at is None,
    ensures
        spawn_verdict(t, now, window_ms, failure is Some) != SpawnVerdict::Degraded,
        spawn_recorded(t, now, delay_ms, window_ms, failure).first_failure_at == Some(now),
        spawn_recorded(t, now, delay_ms, window_ms, failure).degraded == t.degraded,
{
}

/// The request asks for a configuration other than the stored specification
/// `old`: some setting apart from the intent flags and the generation
/// differs.
pub open spec fn config_differs(old: ServiceSpecView, r: EnableRequestView) -> bool {
    ||| old.instance != r.instance
    ||| old.storage_path != r.storage_path
    ||| old.metadata_log_path != r.metadata_log_path
    ||| old.profile != r.profile
    ||| old.mode != r.mode
    ||| old.cycle_time_ms != r.cycle_time_ms
    ||| old.flush_interval_ms != r.flush_interval_ms
    ||| old.max_disk_bytes != r.max_disk_bytes
    ||| old.async_io_backend != r.async_io_backend
    ||| old.io_uring_queue_depth != r.io_uring_queue_depth
    ||| old.io_submit_batch_max != r.io_submit_batch_max
    ||| old.io_cqe_batch_max != r.io_cqe_batch_max
    ||| old.io_uring_register_files != r.io_uring_register_files
    ||| old.checksum_mode != r.checksum_mode
    ||| old.out_of_space_policy != r.out_of_space_policy
    ||| old.metadata_log_roll_bytes != r.metadata_log_roll_bytes
    ||| old.metadata_log_max_bytes != r.metadata_log_max_bytes
}

/// Enable stores every requested setting, enabled and not paused. For a
/// configured service it reports a change, and raises the generation by one,
/// exactly when some requested setting differs from the stored one; when
/// none does it reports no change and keeps the generation, even if the
/// service was disabled or paused. A new service is a change at generation 1.
pub proof fn enable_changes_exactly_on_new_configuration(
    services: Map<Seq<char>, ServiceSpecView>,
    r: EnableRequestView,
)
    ensures
        ({
            let (spec, changed) = enable_target(services, r);
            &&& spec.enabled && !spec.paused
            &&& spec.instance == r.instance && spec.storage_path == r.storage_path
                && spec.metadata_log_path == r.metadata_log_path && spec.profile == r.profile
                && spec.mode == r.mode && spec.cycle_time_ms == r.cycle_time_ms
                && spec.flush_interval_ms == r.flush_interval_ms && spec.max_disk_bytes
                == r.max_disk_bytes && spec.async_io_backend == r.async_io_backend
                && spec.io_uring_queue_depth == r.io_uring_queue_depth && spec.io_submit_batch_max
                == r.io_submit_batch_max && spec.io_cqe_batch_max == r.io_cqe_batch_max
                && spec.io_uring_register_files == r.io_uring_register_files && spec.checksum_mode
                == r.checksum_mode && spec.out_of_space_policy == r.out_of_space_policy
                && spec.metadata_log_roll_bytes == r.metadata_log_roll_bytes
                && spec.metadata_log_max_bytes == r.metadata_log_max_bytes
            &&& services.contains_key(r.service) ==> (changed <==> config_differs(
                services[r.service],
                r,
            ))
            &&& services.contains_key(r.service) && changed ==> spec.generation == next_generation(
                services[r.service].generation,
            )
            &&& services.contains_key(r.service) && !changed ==> spec.generation
                == services[r.service].generation
            &&& !services.contains_key(r.service) ==> changed && spec.generation == 1
        }),
{
    if services.contains_key(r.service) {
        let old = services[r.service];
        let a = with_flags(old, true, false);
        let b = crate::orchestrator::with_generation(
            crate::orchestrator::requested_spec(r),
            old.generation,
        );
        if !config_differs(old, r) {
            assert(a == b);
        } else {
            assert(a != b);
        }
    }
}

/// Pause, resume and start report a change exactly when they change the
/// stored specification.
pub proof fn flag_commands_report_exactly_their_changes(s: ServiceSpecView, f: Flag)
    ensures
        flag_changes(s, f) <==> flagged(s, f) != s,
{
    if !flag_changes(s, f) {
        assert(flagged(s, f) == s);
    }
}

/// The ages and delays of a health report are measured from the moment of
/// the report: the heartbeat age is the time since the last heartbeat, the
/// retry delay the time until the next retry, each zero rather than
/// negative, and each absent when there is no such instant.
pub proof fn health_measures_from_now(
    h: ServiceHealth,
    service: Seq<char>,
    s: ServiceSpecView,
    t: RetryTrackerView,
    live: ServiceLiveStatusView,
    now: u64,
)
    requires
        health_of(h, service, s, t, live, now),
    ensures
        t.last_heartbeat_at is None ==> h.heartbeat_age_ms is None,
        t.last_heartbeat_at matches Some(ts) ==> (ts <= now ==> h.heartbeat_age_ms == Some(
            (now - ts) as u64,
        )),
        t.last_heartbeat_at matches Some(ts) ==> (ts > now ==> h.heartbeat_age_ms == Some(0u64)),
        t.next_retry_at is None ==> h.next_retry_in_ms is None,
        t.next_retry_at matches Some(ts) ==> (ts >= now ==> h.next_retry_in_ms == Some(
            (ts - now) as u64,
        )),
        t.next_retry_at matches Some(ts) ==> (ts < now ==> h.next_retry_in_ms == Some(0u64)),
{
}

/// The heartbeat age reported after a live probe at `t1` and a failed probe
/// at `t2 >= t1` is the time between them: a failed probe keeps the last
/// heartbeat.
pub proof fn heartbeat_age_counts_from_last_live_probe(
    t: RetryTrackerView,
    m1: Option<Seq<char>>,
    t1: u64,
    m2: Option<Seq<char>>,
    t2: u64,
    h: ServiceHealth,
    service: Seq<char>,
    s: ServiceSpecView,
    live: ServiceLiveStatusView,
)
    requires
        t1 <= t2,
        health_of(
            h,
            service,
            s,
            heartbeat_seen(heartbeat_seen(t, true, m1, t1), false, m2, t2),
            live,
            t2,
        ),
    ensures
        h.heartbeat_age_ms == Some((t2 - t1) as u64),
{
}

/// `args`, from position `from` on, holds `flag` immediately followed by
/// `value`.
pub open spec fn pair_after(args: Seq<Seq<char>>, from: int, flag: Seq<char>, value: Seq<char>) -> bool {
    exists|i: int| from <= i && i + 1 < args.len() && #[trigger] args[i] == flag && args[i + 1] == value
}

/// How many tuning settings of `s` are set.
pub open spec fn tuning_count(s: ServiceSpecView) -> int {
    (if s.max_disk_bytes is Some { 1int } else { 0 }) + (if s.async_io_backend is Some { 1int } else { 0 })
        + (if s.io_uring_queue_depth is Some { 1int } else { 0 }) + (if s.io_submit_batch_max is Some { 1int } else { 0 })
        + (if s.io_cqe_batch_max is Some { 1int } else { 0 }) + (if s.io_uring_register_files is Some { 1int } else { 0 })
        + (if s.checksum_mode is Some { 1int } else { 0 }) + (if s.out_of_space_policy is Some { 1int } else { 0 })
        + (if s.metadata_log_roll_bytes is Some { 1int } else { 0 }) + (if s.metadata_log_max_bytes is Some { 1int } else { 0 })
}

proof fn lemma_extend_pair(x: Seq<Seq<char>>, y: Seq<Seq<char>>, i: int, flag: Seq<char>, value: Seq<char>)
    requires
        0 <= i,
        i + 1 < x.len(),
        x[i] == flag,
        x[i + 1] == value,
    ensures
        i + 1 < (x + y).len(),
        (x + y)[i] == flag,
        (x + y)[i + 1] == value,
{
}

proof fn lemma_pair_after_required(req: Seq<Seq<char>>, a: Seq<Seq<char>>, i: int, flag: Seq<char>, value: Seq<char>)
    requires
        0 <= i,
        i + 1 < a.len(),
        a[i] == flag,
        a[i + 1] == value,
    ensures
        pair_after(req + a, req.len() as int, flag, value),
{
    let all = req + a;
    let j = req.len() + i;
    assert(all[j] == flag);
    assert(all[j + 1] == value);
}

/// The tuning arguments of `s` after its first `k + 1` settings.
pub open spec fn tuning_prefix(s: ServiceSpecView, k: int) -> Seq<Seq<char>>
    decreases k,
{
    if k <= 0 {
        tuning_piece(s, 0)
    } else {
        tuning_prefix(s, k - 1) + tuning_piece(s, k)
    }
}

/// The arguments of the `k`-th tuning setting of `s`.
pub open spec fn tuning_piece(s: ServiceSpecView, k: int) -> Seq<Seq<char>> {
    if k == 0 {
        optional_u64_args("--max-disk-bytes"@, s.max_disk_bytes)
    }     else if k == 1 {
        match s.async_io_backend {
            Some(b) => flag_value("--async-io-backend"@, backend_text(b)),
            None => Seq::empty(),
        }
    }     else if k == 2 {
        optional_u32_args("--io-uring-queue-depth"@, s.io_uring_queue_depth)
    }     else if k == 3 {
        optional_u32_args("--io-submit-batch-max"@, s.io_submit_batch_max)
    }     else if k == 4 {
        optional_u32_args("--io-cqe-batch-max"@, s.io_cqe_batch_max)
    }     else if k == 5 {
        match s.io_uring_register_files {
            Some(b) => flag_value("--io-uring-register-files"@, bool_text_spec(b)),
            None => Seq::empty(),
        }
    }     else if k == 6 {
        match s.checksum_mode {
            Some(c) => flag_value("--checksum-mode"@, checksum_text(c)),
            None => Seq::empty(),
        }
    }     else if k == 7 {
        match s.out_of_space_policy {
            Some(p) => flag_value("--out-of-space-policy"@, policy_text(p)),
            None => Seq::empty(),
        }
    }     else if k == 8 {
        optional_u64_args("--metadata-log-roll-bytes"@, s.metadata_log_roll_bytes)
    }     else {
        optional_u64_args("--metadata-log-max-bytes"@, s.metadata_log_max_bytes)
    }
}

proof fn lemma_prefix_keeps_pair(s: ServiceSpecView, k: int, m: int, i: int, flag: Seq<char>, value: Seq<char>)
    requires
        0 <= k <= m,
        0 <= i,
        i + 1 < tuning_prefix(s, k).len(),
        tuning_prefix(s, k)[i] == flag,
        tuning_prefix(s, k)[i + 1] == value,
    ensures
        i + 1 < tuning_prefix(s, m).len(),
        tuning_prefix(s, m)[i] == flag,
        tuning_prefix(s, m)[i + 1] == value,
    decreases m - k,
{
    if k < m {
        lemma_extend_pair(tuning_prefix(s, k), tuning_piece(s, k + 1), i, flag, value);
        lemma_prefix_keeps_pair(s, k + 1, m, i, flag, value);
    }
}

proof fn lemma_piece_reaches(service: Seq<char>, s: ServiceSpecView, k: int, flag: Seq<char>, value: Seq<char>)
    requires
        0 <= k < 10,
        tuning_piece(s, k) == seq![flag, value],
        tuning_args(s) == tuning_prefix(s, 9),
    ensures
        pair_after(recorder_args_spec(service, s), 17, flag, value),
{
    let i: int = if k == 0 { 0 } else { tuning_prefix(s, k - 1).len() as int };
    assert(tuning_prefix(s, k)[i] == flag);
    assert(tuning_prefix(s, k)[i + 1] == value);
    lemma_prefix_keeps_pair(s, k, 9, i, flag, value);
    assert(required_args(service, s).len() == 17);
    lemma_pair_after_required(required_args(service, s), tuning_args(s), i, flag, value);
}

proof fn lemma_tuning_prefix(s: ServiceSpecView)
    ensures
        tuning_args(s) == tuning_prefix(s, 9),
        tuning_args(s).len() == 2 * tuning_count(s),
{
    assert(tuning_prefix(s, 0) == tuning_piece(s, 0));
    assert(tuning_prefix(s, 1) == tuning_prefix(s, 0) + tuning_piece(s, 1));
    assert(tuning_prefix(s, 2) == tuning_prefix(s, 1) + tuning_piece(s, 2));
    assert(tuning_prefix(s, 3) == tuning_prefix(s, 2) + tuning_piece(s, 3));
    assert(tuning_prefix(s, 4) == tuning_prefix(s, 3) + tuning_piece(s, 4));
    assert(tuning_prefix(s, 5) == tuning_prefix(s, 4) + tuning_piece(s, 5));
    assert(tuning_prefix(s, 6) == tuning_prefix(s, 5) + tuning_piece(s, 6));
    assert(tuning_prefix(s, 7) == tuning_prefix(s, 6) + tuning_piece(s, 7));
    assert(tuning_prefix(s, 8) == tuning_prefix(s, 7) + tuning_piece(s, 8));
    assert(tuning_prefix(s, 9) == tuning_prefix(s, 8) + tuning_piece(s, 9));
}

/// The recorder's command line carries every tuning setting that is set:
/// after the seventeen arguments every recorder gets, each set setting's flag
/// stands immediately before its value; and the command line is exactly two
/// arguments longer for each set setting.
pub proof fn set_tuning_settings_reach_the_command_line(service: Seq<char>, s: ServiceSpecView)
    ensures
        ({
            let args = recorder_args_spec(service, s);
            &&& args.len() == 17 + 2 * tuning_count(s)
            &&& s.max_disk_bytes matches Some(v) ==> pair_after(args, 17, "--max-disk-bytes"@, decimal(v as nat))
            &&& s.async_io_backend matches Some(v) ==> pair_after(args, 17, "--async-io-backend"@, backend_text(v))
            &&& s.io_uring_queue_depth matches Some(v) ==> pair_after(args, 17, "--io-uring-queue-depth"@, decimal(v as nat))
            &&& s.io_submit_batch_max matches Some(v) ==> pair_after(args, 17, "--io-submit-batch-max"@, decimal(v as nat))
            &&& s.io_cqe_batch_max matches Some(v) ==> pair_after(args, 17, "--io-cqe-batch-max"@, decimal(v as nat))
            &&& s.io_uring_register_files matches Some(v) ==> pair_after(args, 17, "--io-uring-register-files"@, bool_text_spec(v))
            &&& s.checksum_mode matches Some(v) ==> pair_after(args, 17, "--checksum-mode"@, checksum_text(v))
            &&& s.out_of_space_policy matches Some(v) ==> pair_after(args, 17, "--out-of-space-policy"@, policy_text(v))
            &&& s.metadata_log_roll_bytes matches Some(v) ==> pair_after(args, 17, "--metadata-log-roll-bytes"@, decimal(v as nat))
            &&& s.metadata_log_max_bytes matches Some(v) ==> pair_after(args, 17, "--metadata-log-max-bytes"@, decimal(v as nat))
        }),
{
    lemma_tuning_prefix(s);
    if let Some(v) = s.max_disk_bytes {
        lemma_piece_reaches(service, s, 0, "--max-disk-bytes"@, decimal(v as nat));
    }
    if let Some(v) = s.async_io_backend {
        lemma_piece_reaches(service, s, 1, "--async-io-backend"@, backend_text(v));
    }
    if let Some(v) = s.io_uring_queue_depth {
        lemma_piece_reaches(service, s, 2, "--io-uring-queue-depth"@, decimal(v as nat));
    }
    if let Some(v) = s.io_submit_batch_max {
        lemma_piece_reaches(service, s, 3, "--io-submit-batch-max"@, decimal(v as nat));
    }
    if let Some(v) = s.io_cqe_batch_max {
        lemma_piece_reaches(service, s, 4, "--io-cqe-batch-max"@, decimal(v as nat));
    }
    if let Some(v) = s.io_uring_register_files {
        lemma_piece_reaches(service, s, 5, "--io-uring-register-files"@, bool_text_spec(v));
    }
    if let Some(v) = s.checksum_mode {
        lemma_piece_reaches(service, s, 6, "--checksum-mode"@, checksum_text(v));
    }
    if let Some(v) = s.out_of_space_policy {
        lemma_piece_reaches(service, s, 7, "--out-of-space-policy"@, policy_text(v));
    }
    if let Some(v) = s.metadata_log_roll_bytes {
        lemma_piece_reaches(service, s, 8, "--metadata-log-roll-bytes"@, decimal(v as nat));
    }
    if let Some(v) = s.metadata_log_max_bytes {
        lemma_piece_reaches(service, s, 9, "--metadata-log-max-bytes"@, decimal(v as nat));
    }
}

} // verus!
