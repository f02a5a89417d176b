//! The decisions of `profile run`: the preflight before anything is
//! written, the choice of whether a probe supplies the load, and which
//! capture phases run. The caller performs each action and reports what
//! came back.
use vstd::prelude::*;

verus! {

/// Where a collection stands.
#[derive(PartialEq, Eq, Structural, Clone, Copy)]
pub enum CollectPhase {
    Idle,
    Reaching,
    Preflight,
    MakingDir,
    ReadingMetrics,
    ResolvingModel,
    CheckingNsys,
    NsysWindow,
    StartingTorch,
    TorchWindow,
    Benching,
    ReadingAfter,
    ReadingTelemetry,
    Finished,
}

/// A collection in progress: what the command line asked of the probe,
/// what the server looked like, and which captures made it into the run.
#[derive(PartialEq, Eq, Structural, Clone, Copy)]
pub struct CollectState {
    pub phase: CollectPhase,
    /// `--probe` was given on the command line, with this value.
    pub probe_set: bool,
    pub probe_flag: bool,
    /// `--probe-model` names the model.
    pub has_model: bool,
    /// No request was running when the metrics were first read.
    pub idle: bool,
    /// A probe supplies the load.
    pub probe: bool,
    pub nsys: bool,
    pub torch: bool,
    pub bench: bool,
    pub metrics: bool,
    pub telemetry: bool,
}

/// What came back from the last action.
#[derive(PartialEq, Eq, Structural, Clone, Copy)]
pub enum CollectEvent {
    /// The command starts with these flags.
    Begin { probe_set: bool, probe_flag: bool, has_model: bool },
    /// A trivial command ran on the target, or failed.
    Reached { ok: bool },
    /// `/v1/models` answered with status 200, or did not.
    Answered { ok: bool },
    /// The run directory was created, or not.
    DirMade { ok: bool },
    /// The first metrics scrape: whether it came back, and whether no
    /// request was running.
    MetricsRead { ok: bool, idle: bool },
    /// The probe's model was read from `/v1/models`, or not.
    ModelResolved { ok: bool },
    /// `nsys` is on the target's path; the session list ran; it names
    /// the session.
    NsysChecked { present: bool, list_ok: bool, listed: bool },
    /// The nsys window ran to the end, or a step of it failed.
    NsysDone { ok: bool },
    /// `/start_profile` answered with status 200, or did not.
    TorchStarted { ok: bool },
    /// The torch window ran and `/stop_profile` answered, or failed.
    TorchDone { ok: bool },
    /// The sweep and pressure probe finished, or failed.
    BenchDone { ok: bool },
    /// The second metrics scrape came back, or not.
    AfterRead { ok: bool },
    /// The GPU telemetry query came back, or not.
    TelemetryRead { ok: bool },
}

/// Why a collection stops.
#[derive(PartialEq, Eq, Structural, Clone, Copy)]
pub enum CollectError {
    Unreachable,
    NotServing,
    RunDir,
    NoMetrics,
    NoModel,
    NsysWindow,
    TorchStop,
}

/// What to do next.
#[derive(PartialEq, Eq, Structural, Clone, Copy)]
pub enum CollectAction {
    /// Run a trivial command on the target.
    CheckReach,
    /// Ask `/v1/models` for its status code; nothing is written yet.
    Preflight,
    /// Create the run directory: the first thing the run writes.
    MakeRunDir,
    /// Record the server's flags and scrape the metrics.
    ReadMetrics,
    /// Read the probe's model from `/v1/models`.
    ResolveModel,
    /// Look for `nsys` and its session on the target.
    CheckNsys,
    /// Run the nsys window; the probe supplies the load when `probe`.
    RunNsysWindow { probe: bool },
    /// POST `/start_profile`.
    StartTorch,
    /// Run the torch window, then POST `/stop_profile`.
    RunTorchWindow { probe: bool },
    /// Run the concurrency sweep and the KV pressure probe.
    RunBench,
    /// Scrape the metrics again.
    ReadMetricsAfter,
    /// Query the GPU telemetry.
    ReadTelemetry,
    /// Collect the environment and server log and analyse locally.
    Finish,
    /// Stop with this error.
    Fail(CollectError),
    /// The event does not apply in this phase.
    Ignore,
}

/// Whether a probe supplies the load: the flag when it was given, else
/// whether the server was idle.
pub open spec fn probe_wanted(s: CollectState) -> bool {
    if s.probe_set { s.probe_flag } else { s.idle }
}

/// The step after the torch phase: the sweep on a probed server only.
pub open spec fn after_torch(s: CollectState) -> (CollectState, CollectAction) {
    if s.probe {
        (CollectState { phase: CollectPhase::Benching, ..s }, CollectAction::RunBench)
    } else {
        (CollectState { phase: CollectPhase::ReadingAfter, ..s }, CollectAction::ReadMetricsAfter)
    }
}

pub open spec fn fail(s: CollectState, err: CollectError) -> (CollectState, CollectAction) {
    (CollectState { phase: CollectPhase::Finished, ..s }, CollectAction::Fail(err))
}

/// One step of `profile run`.
pub open spec fn collect_step(s: CollectState, e: CollectEvent) -> (CollectState, CollectAction) {
    match (s.phase, e) {
        (CollectPhase::Idle, CollectEvent::Begin { probe_set, probe_flag, has_model }) => (
            CollectState { phase: CollectPhase::Reaching, probe_set, probe_flag, has_model, ..s },
            CollectAction::CheckReach,
        ),
        (CollectPhase::Reaching, CollectEvent::Reached { ok }) => if ok {
            (CollectState { phase: CollectPhase::Preflight, ..s }, CollectAction::Preflight)
        } else {
            fail(s, CollectError::Unreachable)
        },
        (CollectPhase::Preflight, CollectEvent::Answered { ok }) => if ok {
            (CollectState { phase: CollectPhase::MakingDir, ..s }, CollectAction::MakeRunDir)
        } else {
            fail(s, CollectError::NotServing)
        },
        (CollectPhase::MakingDir, CollectEvent::DirMade { ok }) => if ok {
            (CollectState { phase: CollectPhase::ReadingMetrics, ..s }, CollectAction::ReadMetrics)
        } else {
            fail(s, CollectError::RunDir)
        },
        (CollectPhase::ReadingMetrics, CollectEvent::MetricsRead { ok, idle }) => if !ok {
            fail(s, CollectError::NoMetrics)
        } else {
            let s1 = CollectState { idle, ..s };
            let s2 = CollectState { probe: probe_wanted(s1), ..s1 };
            if s2.probe && !s2.has_model {
                (CollectState { phase: CollectPhase::ResolvingModel, ..s2 }, CollectAction::ResolveModel)
            } else {
                (CollectState { phase: CollectPhase::CheckingNsys, ..s2 }, CollectAction::CheckNsys)
            }
        },
        (CollectPhase::ResolvingModel, CollectEvent::ModelResolved { ok }) => if ok {
            (CollectState { phase: CollectPhase::CheckingNsys, ..s }, CollectAction::CheckNsys)
        } else {
            fail(s, CollectError::NoModel)
        },
        (CollectPhase::CheckingNsys, CollectEvent::NsysChecked { present, list_ok, listed }) => if present
            && (!list_ok || listed) {
            (CollectState { phase: CollectPhase::NsysWindow, ..s }, CollectAction::RunNsysWindow { probe: s.probe })
        } else {
            (CollectState { phase: CollectPhase::StartingTorch, ..s }, CollectAction::StartTorch)
        },
        (CollectPhase::NsysWindow, CollectEvent::NsysDone { ok }) => if ok {
            (CollectState { phase: CollectPhase::StartingTorch, nsys: true, ..s }, CollectAction::StartTorch)
        } else {
            fail(s, CollectError::NsysWindow)
        },
        (CollectPhase::StartingTorch, CollectEvent::TorchStarted { ok }) => if ok {
            (CollectState { phase: CollectPhase::TorchWindow, ..s }, CollectAction::RunTorchWindow { probe: s.probe })
        } else {
            after_torch(s)
        },
        (CollectPhase::TorchWindow, CollectEvent::TorchDone { ok }) => if ok {
            after_torch(CollectState { torch: true, ..s })
        } else {
            fail(s, CollectError::TorchStop)
        },
        (CollectPhase::Benching, CollectEvent::BenchDone { ok }) => (
            CollectState { phase: CollectPhase::ReadingAfter, bench: ok, ..s },
            CollectAction::ReadMetricsAfter,
        ),
        (CollectPhase::ReadingAfter, CollectEvent::AfterRead { ok }) => (
            CollectState { phase: CollectPhase::ReadingTelemetry, metrics: ok, ..s },
            CollectAction::ReadTelemetry,
        ),
        (CollectPhase::ReadingTelemetry, CollectEvent::TelemetryRead { ok }) => (
            CollectState { phase: CollectPhase::Finished, telemetry: ok, ..s },
            CollectAction::Finish,
        ),
        _ => (s, CollectAction::Ignore),
    }
}

/// The state a collection starts in.
pub open spec fn collect_start() -> CollectState {
    CollectState {
        phase: CollectPhase::Idle,
        probe_set: false,
        probe_flag: false,
        has_model: false,
        idle: false,
        probe: false,
        nsys: false,
        torch: false,
        bench: false,
        metrics: false,
        telemetry: false,
    }
}

/// The state a collection starts in.
pub fn collectStart() -> (r: CollectState)
    ensures
        r == collect_start(),
{
    CollectState {
        phase: CollectPhase::Idle,
        probe_set: false,
        probe_flag: false,
        has_model: false,
        idle: false,
        probe: false,
        nsys: false,
        torch: false,
        bench: false,
        metrics: false,
        telemetry: false,
    }
}

fn after_torch_exec(s: CollectState) -> (r: (CollectState, CollectAction))
    ensures
        r == after_torch(s),
{
    if s.probe {
        (CollectState { phase: CollectPhase::Benching, ..s }, CollectAction::RunBench)
    } else {
        (CollectState { phase: CollectPhase::ReadingAfter, ..s }, CollectAction::ReadMetricsAfter)
    }
}

fn fail_exec(s: CollectState, err: CollectError) -> (r: (CollectState, CollectAction))
    ensures
        r == fail(s, err),
{
    (CollectState { phase: CollectPhase::Finished, ..s }, CollectAction::Fail(err))
}

/// One step of `profile run`: the next state and the action to perform.
pub fn collectStep(s: &CollectState, e: CollectEvent) -> (r: (CollectState, CollectAction))
    ensures
        r == collect_step(*s, e),
{
    let s = *s;
    match (s.phase, e) {
        (CollectPhase::Idle, CollectEvent::Begin { probe_set, probe_flag, has_model }) => (
            CollectState { phase: CollectPhase::Reaching, probe_set, probe_flag, has_model, ..s },
            CollectAction::CheckReach,
        ),
        (CollectPhase::Reaching, CollectEvent::Reached { ok }) => if ok {
            (CollectState { phase: CollectPhase::Preflight, ..s }, CollectAction::Preflight)
        } else {
            fail_exec(s, CollectError::Unreachable)
        },
        (CollectPhase::Preflight, CollectEvent::Answered { ok }) => if ok {
            (CollectState { phase: CollectPhase::MakingDir, ..s }, CollectAction::MakeRunDir)
        } else {
            fail_exec(s, CollectError::NotServing)
        },
        (CollectPhase::MakingDir, CollectEvent::DirMade { ok }) => if ok {
            (CollectState { phase: CollectPhase::ReadingMetrics, ..s }, CollectAction::ReadMetrics)
        } else {
            fail_exec(s, CollectError::RunDir)
        },
        (CollectPhase::ReadingMetrics, CollectEvent::MetricsRead { ok, idle }) => if !ok {
            fail_exec(s, CollectError::NoMetrics)
        } else {
            let probe = if s.probe_set { s.probe_flag } else { idle };
            let s2 = CollectState { idle, probe, ..s };
            if probe && !s.has_model {
                (CollectState { phase: CollectPhase::ResolvingModel, ..s2 }, CollectAction::ResolveModel)
            } else {
                (CollectState { phase: CollectPhase::CheckingNsys, ..s2 }, CollectAction::CheckNsys)
            }
        },
        (CollectPhase::ResolvingModel, CollectEvent::ModelResolved { ok }) => if ok {
            (CollectState { phase: CollectPhase::CheckingNsys, ..s }, CollectAction::CheckNsys)
        } else {
            fail_exec(s, CollectError::NoModel)
        },
        (CollectPhase::CheckingNsys, CollectEvent::NsysChecked { present, list_ok, listed }) => if present
            && (!list_ok || listed) {
            (CollectState { phase: CollectPhase::NsysWindow, ..s }, CollectAction::RunNsysWindow { probe: s.probe })
        } else {
            (CollectState { phase: CollectPhase::StartingTorch, ..s }, CollectAction::StartTorch)
        },
        (CollectPhase::NsysWindow, CollectEvent::NsysDone { ok }) => if ok {
            (CollectState { phase: CollectPhase::StartingTorch, nsys: true, ..s }, CollectAction::StartTorch)
        } else {
            fail_exec(s, CollectError::NsysWindow)
        },
        (CollectPhase::StartingTorch, CollectEvent::TorchStarted { ok }) => if ok {
            (CollectState { phase: CollectPhase::TorchWindow, ..s }, CollectAction::RunTorchWindow { probe: s.probe })
        } else {
            after_torch_exec(s)
        },
        (CollectPhase::TorchWindow, CollectEvent::TorchDone { ok }) => if ok {
            after_torch_exec(CollectState { torch: true, ..s })
        } else {
            fail_exec(s, CollectError::TorchStop)
        },
        (CollectPhase::Benching, CollectEvent::BenchDone { ok }) => (
            CollectState { phase: CollectPhase::ReadingAfter, bench: ok, ..s },
            CollectAction::ReadMetricsAfter,
        ),
        (CollectPhase::ReadingAfter, CollectEvent::AfterRead { ok }) => (
            CollectState { phase: CollectPhase::ReadingTelemetry, metrics: ok, ..s },
            CollectAction::ReadTelemetry,
        ),
        (CollectPhase::ReadingTelemetry, CollectEvent::TelemetryRead { ok }) => (
            CollectState { phase: CollectPhase::Finished, telemetry: ok, ..s },
            CollectAction::Finish,
        ),
        _ => (s, CollectAction::Ignore),
    }
}

/// The state and the actions after a sequence of events.
pub open spec fn collect_run(es: Seq<CollectEvent>) -> (CollectState, Seq<CollectAction>)
    decreases es.len(),
{
    if es.len() == 0 {
        (collect_start(), seq![])
    } else {
        let (s, acts) = collect_run(es.drop_last());
        let (s2, a) = collect_step(s, es.last());
        (s2, acts.push(a))
    }
}

/// An action that puts load on the server.
pub open spec fn is_load(a: CollectAction) -> bool {
    ||| a == CollectAction::RunNsysWindow { probe: true }
    ||| a == CollectAction::RunTorchWindow { probe: true }
    ||| a == CollectAction::RunBench
}

/// Phases reached only after the first metrics scrape.
pub open spec fn after_metrics(p: CollectPhase) -> bool {
    !(p == CollectPhase::Idle || p == CollectPhase::Reaching || p == CollectPhase::Preflight
        || p == CollectPhase::MakingDir || p == CollectPhase::ReadingMetrics)
}

/// What every reachable state keeps: no probe is chosen before the
/// first scrape, and a chosen probe is one the flag or the server's
/// idleness asked for.
pub open spec fn collect_inv(s: CollectState) -> bool {
    &&& !after_metrics(s.phase) ==> !s.probe
    &&& s.probe ==> probe_wanted(s)
}

proof fn lemma_step_inv(s: CollectState, e: CollectEvent)
    requires
        collect_inv(s),
    ensures
        collect_inv(collect_step(s, e).0),
        is_load(collect_step(s, e).1) ==> probe_wanted(collect_step(s, e).0),
{
}

/// A busy server is never load-tested: in any run of `profile run`,
/// every action that sends probe load (a probed capture window, or the
/// sweep) happens in a run where the probe was asked for on the command
/// line or the first metrics scrape found the server idle.
pub proof fn lemma_no_probe_on_busy_server(es: Seq<CollectEvent>)
    ensures
        ({
            let (s, acts) = collect_run(es);
            &&& collect_inv(s)
            &&& forall|k: int|
                0 <= k < acts.len() && #[trigger] is_load(acts[k]) ==> probe_wanted(
                    collect_run(es.take(k + 1)).0,
                )
        }),
    decreases es.len(),
{
    if es.len() > 0 {
        let pre = es.drop_last();
        lemma_no_probe_on_busy_server(pre);
        lemma_phase_history(pre);
        let (s, acts) = collect_run(pre);
        lemma_step_inv(s, es.last());
        let (s2, a) = collect_step(s, es.last());
        let acts2 = acts.push(a);
        assert(collect_run(es) == (s2, acts2));
        assert forall|k: int| 0 <= k < acts2.len() && #[trigger] is_load(acts2[k]) implies probe_wanted(
            collect_run(es.take(k + 1)).0,
        ) by {
            if k < acts.len() {
                assert(acts2[k] == acts[k]);
                assert(es.take(k + 1) =~= pre.take(k + 1));
            } else {
                assert(es.take(k + 1) =~= es);
            }
        }
    }
}

/// The preflight comes first: in any run, the run directory (the first
/// thing written) is only made on a `/v1/models` status 200, after a
/// preflight that the target's answer to a trivial command let through.
pub proof fn lemma_preflight_before_writes(es: Seq<CollectEvent>)
    ensures
        ({
            let (s, acts) = collect_run(es);
            forall|k: int|
                0 <= k < acts.len() && #[trigger] acts[k] == CollectAction::MakeRunDir ==> {
                    &&& es[k] == CollectEvent::Answered { ok: true }
                    &&& exists|j: int|
                        0 <= j < k && acts[j] == CollectAction::Preflight && es[j]
                            == CollectEvent::Reached { ok: true }
                }
        }),
    decreases es.len(),
{
    if es.len() > 0 {
        let pre = es.drop_last();
        lemma_preflight_before_writes(pre);
        lemma_phase_history(pre);
        let (s, acts) = collect_run(pre);
        let (s2, a) = collect_step(s, es.last());
        let acts2 = acts.push(a);
        assert(collect_run(es) == (s2, acts2));
        assert forall|k: int| 0 <= k < acts2.len() && #[trigger] acts2[k] == CollectAction::MakeRunDir implies {
            &&& es[k] == CollectEvent::Answered { ok: true }
            &&& exists|j: int|
                0 <= j < k && acts2[j] == CollectAction::Preflight && es[j] == CollectEvent::Reached { ok: true }
        } by {
            if k < acts.len() {
                assert(acts2[k] == acts[k]);
                assert(es[k] == pre[k]);
                let j = choose|j: int|
                    0 <= j < k && acts[j] == CollectAction::Preflight && pre[j] == CollectEvent::Reached { ok: true };
                assert(acts2[j] == acts[j] && es[j] == pre[j]);
            } else {
                assert(s.phase == CollectPhase::Preflight);
                let j = choose|j: int|
                    0 <= j < acts.len() && acts[j] == CollectAction::Preflight && pre[j]
                        == CollectEvent::Reached { ok: true };
                assert(acts2[j] == acts[j] && es[j] == pre[j]);
            }
        }
    }
}

/// The phases before anything is written to the target or the run.
pub open spec fn before_writes(p: CollectPhase) -> bool {
    p == CollectPhase::Idle || p == CollectPhase::Reaching || p == CollectPhase::Preflight
}

/// The actions of the preflight: the reach check and the `/v1/models`
/// status query, which write nothing.
pub open spec fn preflight_only(a: CollectAction) -> bool {
    a == CollectAction::CheckReach || a == CollectAction::Preflight || a == CollectAction::Ignore
}

/// A failed reach or preflight ends the run with nothing written: in any
/// run, when the target is unreachable or `/v1/models` does not answer
/// with status 200, every action before the failure was the reach check
/// or the preflight, and nothing after it acts at all.
pub proof fn lemma_failed_preflight_ends_run(es: Seq<CollectEvent>)
    ensures
        ({
            let (s, acts) = collect_run(es);
            &&& before_writes(s.phase) ==> forall|j: int| 0 <= j < acts.len() ==> #[trigger] preflight_only(acts[j])
            &&& forall|k: int|
                0 <= k < acts.len() && (#[trigger] acts[k] == CollectAction::Fail(CollectError::Unreachable)
                    || acts[k] == CollectAction::Fail(CollectError::NotServing)) ==> {
                    &&& s.phase == CollectPhase::Finished
                    &&& forall|j: int| 0 <= j < k ==> #[trigger] preflight_only(acts[j])
                    &&& forall|j: int| k < j < acts.len() ==> #[trigger] acts[j] == CollectAction::Ignore
                }
        }),
    decreases es.len(),
{
    if es.len() > 0 {
        let pre = es.drop_last();
        lemma_failed_preflight_ends_run(pre);
        lemma_phase_history(pre);
        let (s, acts) = collect_run(pre);
        let (s2, a) = collect_step(s, es.last());
        let acts2 = acts.push(a);
        assert(collect_run(es) == (s2, acts2));
        let n = acts.len() as int;
        assert forall|j: int| 0 <= j < n implies acts2[j] == acts[j] by {}
        if before_writes(s2.phase) {
            assert(before_writes(s.phase));
            assert forall|j: int| 0 <= j < acts2.len() implies #[trigger] preflight_only(acts2[j]) by {
                if j < n {
                    assert(preflight_only(acts[j]));
                }
            }
        }
        assert forall|k: int|
            0 <= k < acts2.len() && (#[trigger] acts2[k] == CollectAction::Fail(CollectError::Unreachable)
                || acts2[k] == CollectAction::Fail(CollectError::NotServing)) implies {
            &&& s2.phase == CollectPhase::Finished
            &&& forall|j: int| 0 <= j < k ==> #[trigger] preflight_only(acts2[j])
            &&& forall|j: int| k < j < acts2.len() ==> #[trigger] acts2[j] == CollectAction::Ignore
        } by {
            if k < n {
                assert(acts[k] == acts2[k]);
                assert(s.phase == CollectPhase::Finished);
                assert forall|j: int| 0 <= j < k implies #[trigger] preflight_only(acts2[j]) by {
                    assert(preflight_only(acts[j]));
                }
                assert forall|j: int| k < j < acts2.len() implies #[trigger] acts2[j] == CollectAction::Ignore by {
                    if j < n {
                        assert(acts[j] == CollectAction::Ignore);
                    }
                }
            } else {
                assert(before_writes(s.phase));
                assert forall|j: int| 0 <= j < k implies #[trigger] preflight_only(acts2[j]) by {
                    assert(preflight_only(acts[j]));
                }
            }
        }
    }
}

/// In the preflight phase, a preflight was sent on a `Reached { ok: true }`.
proof fn lemma_phase_history(es: Seq<CollectEvent>)
    ensures
        ({
            let (s, acts) = collect_run(es);
            &&& acts.len() == es.len()
            &&& s.phase == CollectPhase::Preflight ==> exists|j: int|
                0 <= j < acts.len() && acts[j] == CollectAction::Preflight && es[j]
                    == CollectEvent::Reached { ok: true }
        }),
    decreases es.len(),
{
    if es.len() > 0 {
        let pre = es.drop_last();
        lemma_phase_history(pre);
        let (s, acts) = collect_run(pre);
        let (s2, a) = collect_step(s, es.last());
        let acts2 = acts.push(a);
        assert(collect_run(es) == (s2, acts2));
        if s2.phase == CollectPhase::Preflight {
            if s.phase == CollectPhase::Preflight {
                let j = choose|j: int|
                    0 <= j < acts.len() && acts[j] == CollectAction::Preflight && pre[j]
                        == CollectEvent::Reached { ok: true };
                assert(acts2[j] == acts[j] && es[j] == pre[j]);
            } else {
                assert(acts2[acts.len() as int] == CollectAction::Preflight);
                assert(es[acts.len() as int] == es.last());
            }
        }
    }
}

/// Where a single-tool capture (`profile run <tool>`) stands.
#[derive(PartialEq, Eq, Structural, Clone, Copy)]
pub enum ProfilePhase {
    Idle,
    Reaching,
    CheckingBinary,
    ListingSessions,
    CheckingServer,
    MakingDirs,
    ResolvingModel,
    Window,
    Fetching,
    Finished,
}

/// A single-tool capture in progress.
#[derive(PartialEq, Eq, Structural, Clone, Copy)]
pub struct ProfileState {
    pub phase: ProfilePhase,
    /// The tool is nsys (preflight: binary and session), rather than one
    /// driven through the server's endpoint.
    pub nsys: bool,
    /// `--probe` was given: the probe supplies the load in the window.
    pub probe: bool,
    /// `--probe-model` names the model.
    pub has_model: bool,
}

/// What came back from the last action.
#[derive(PartialEq, Eq, Structural, Clone, Copy)]
pub enum ProfileEvent {
    /// The command starts: whether the tool is in the registry, whether
    /// it has an automated window, whether it is nsys, and the flags.
    Begin { found: bool, has_window: bool, nsys: bool, probe: bool, has_model: bool },
    /// A trivial command ran on the target, or failed.
    Reached { ok: bool },
    /// `command -v nsys` succeeded, or not.
    BinaryFound { ok: bool },
    /// `nsys sessions list` ran (`list_ok`) and names the session.
    SessionsListed { list_ok: bool, listed: bool },
    /// The server answered at its address, or not.
    ServerAnswered { ok: bool },
    /// The output and artifact directories were made, or one failed.
    DirsMade { ok: bool },
    /// The probe's model was read from `/v1/models`, or not.
    ModelResolved { ok: bool },
    /// The window's commands ran to the end, or one failed.
    WindowDone { ok: bool },
    /// Every artifact was fetched, or one failed.
    Fetched { ok: bool },
}

/// Why a single-tool capture stops.
#[derive(PartialEq, Eq, Structural, Clone, Copy)]
pub enum ProfileError {
    UnknownTool,
    NoRecipe,
    Unreachable,
    NsysMissing,
    NoSession,
    NoServer,
    Dirs,
    NoModel,
    Window,
    Fetch,
}

/// What to do next.
#[derive(PartialEq, Eq, Structural, Clone, Copy)]
pub enum ProfileAction {
    /// Run a trivial command on the target.
    CheckReach,
    /// Look for the nsys binary.
    CheckBinary,
    /// List the nsys sessions.
    ListSessions,
    /// Ask the server's `/v1/models`.
    CheckServer,
    /// Make the output directory and each artifact's directory.
    MakeDirs,
    /// Read the probe's model from `/v1/models`.
    ResolveModel,
    /// Run the capture window; the probe supplies the load when `probe`.
    RunWindow { probe: bool },
    /// Fetch the artifacts.
    Fetch,
    /// Collect the environment and server log and analyse locally.
    Finish,
    /// Stop with this error.
    Fail(ProfileError),
    /// The event does not apply in this phase.
    Ignore,
}

pub open spec fn profile_fail(s: ProfileState, err: ProfileError) -> (ProfileState, ProfileAction) {
    (ProfileState { phase: ProfilePhase::Finished, ..s }, ProfileAction::Fail(err))
}

/// The step once the directories exist: resolve the probe's model
/// before the window opens, so a bad endpoint fails before the capture.
pub open spec fn before_window(s: ProfileState) -> (ProfileState, ProfileAction) {
    if s.probe && !s.has_model {
        (ProfileState { phase: ProfilePhase::ResolvingModel, ..s }, ProfileAction::ResolveModel)
    } else {
        (ProfileState { phase: ProfilePhase::Window, ..s }, ProfileAction::RunWindow { probe: s.probe })
    }
}

/// One step of `profile run <tool>`: an unknown tool or one without a
/// recipe fails before the target is touched; then reachability, the
/// tool's preflight, the directories, the window and the fetch.
pub open spec fn profile_step(s: ProfileState, e: ProfileEvent) -> (ProfileState, ProfileAction) {
    match (s.phase, e) {
        (ProfilePhase::Idle, ProfileEvent::Begin { found, has_window, nsys, probe, has_model }) => {
            let s1 = ProfileState { nsys, probe, has_model, ..s };
            if !found {
                profile_fail(s1, ProfileError::UnknownTool)
            } else if !has_window {
                profile_fail(s1, ProfileError::NoRecipe)
            } else {
                (ProfileState { phase: ProfilePhase::Reaching, ..s1 }, ProfileAction::CheckReach)
            }
        },
        (ProfilePhase::Reaching, ProfileEvent::Reached { ok }) => if !ok {
            profile_fail(s, ProfileError::Unreachable)
        } else if s.nsys {
            (ProfileState { phase: ProfilePhase::CheckingBinary, ..s }, ProfileAction::CheckBinary)
        } else {
            (ProfileState { phase: ProfilePhase::CheckingServer, ..s }, ProfileAction::CheckServer)
        },
        (ProfilePhase::CheckingBinary, ProfileEvent::BinaryFound { ok }) => if ok {
            (ProfileState { phase: ProfilePhase::ListingSessions, ..s }, ProfileAction::ListSessions)
        } else {
            profile_fail(s, ProfileError::NsysMissing)
        },
        (ProfilePhase::ListingSessions, ProfileEvent::SessionsListed { list_ok, listed }) => if list_ok && !listed {
            profile_fail(s, ProfileError::NoSession)
        } else {
            (ProfileState { phase: ProfilePhase::MakingDirs, ..s }, ProfileAction::MakeDirs)
        },
        (ProfilePhase::CheckingServer, ProfileEvent::ServerAnswered { ok }) => if ok {
            (ProfileState { phase: ProfilePhase::MakingDirs, ..s }, ProfileAction::MakeDirs)
        } else {
            profile_fail(s, ProfileError::NoServer)
        },
        (ProfilePhase::MakingDirs, ProfileEvent::DirsMade { ok }) => if ok {
            before_window(s)
        } else {
            profile_fail(s, ProfileError::Dirs)
        },
        (ProfilePhase::ResolvingModel, ProfileEvent::ModelResolved { ok }) => if ok {
            (ProfileState { phase: ProfilePhase::Window, ..s }, ProfileAction::RunWindow { probe: s.probe })
        } else {
            profile_fail(s, ProfileError::NoModel)
        },
        (ProfilePhase::Window, ProfileEvent::WindowDone { ok }) => if ok {
            (ProfileState { phase: ProfilePhase::Fetching, ..s }, ProfileAction::Fetch)
        } else {
            profile_fail(s, ProfileError::Window)
        },
        (ProfilePhase::Fetching, ProfileEvent::Fetched { ok }) => if ok {
            (ProfileState { phase: ProfilePhase::Finished, ..s }, ProfileAction::Finish)
        } else {
            profile_fail(s, ProfileError::Fetch)
        },
        _ => (s, ProfileAction::Ignore),
    }
}

/// The state a single-tool capture starts in.
pub open spec fn profile_start() -> ProfileState {
    ProfileState { phase: ProfilePhase::Idle, nsys: false, probe: false, has_model: false }
}

/// The state a single-tool capture starts in.
pub fn profileStart() -> (r: ProfileState)
    ensures
        r == profile_start(),
{
    ProfileState { phase: ProfilePhase::Idle, nsys: false, probe: false, has_model: false }
}

fn profile_fail_exec(s: ProfileState, err: ProfileError) -> (r: (ProfileState, ProfileAction))
    ensures
        r == profile_fail(s, err),
{
    (ProfileState { phase: ProfilePhase::Finished, ..s }, ProfileAction::Fail(err))
}

/// One step of `profile run <tool>`: the next state and the action.
pub fn profileStep(s: &ProfileState, e: ProfileEvent) -> (r: (ProfileState, ProfileAction))
    ensures
        r == profile_step(*s, e),
{
    let s = *s;
    match (s.phase, e) {
        (ProfilePhase::Idle, ProfileEvent::Begin { found, has_window, nsys, probe, has_model }) => {
            let s1 = ProfileState { nsys, probe, has_model, ..s };
            if !found {
                profile_fail_exec(s1, ProfileError::UnknownTool)
            } else if !has_window {
                profile_fail_exec(s1, ProfileError::NoRecipe)
            } else {
                (ProfileState { phase: ProfilePhase::Reaching, ..s1 }, ProfileAction::CheckReach)
            }
        },
        (ProfilePhase::Reaching, ProfileEvent::Reached { ok }) => if !ok {
            profile_fail_exec(s, ProfileError::Unreachable)
        } else if s.nsys {
            (ProfileState { phase: ProfilePhase::CheckingBinary, ..s }, ProfileAction::CheckBinary)
        } else {
            (ProfileState { phase: ProfilePhase::CheckingServer, ..s }, ProfileAction::CheckServer)
        },
        (ProfilePhase::CheckingBinary, ProfileEvent::BinaryFound { ok }) => if ok {
            (ProfileState { phase: ProfilePhase::ListingSessions, ..s }, ProfileAction::ListSessions)
        } else {
            profile_fail_exec(s, ProfileError::NsysMissing)
        },
        (ProfilePhase::ListingSessions, ProfileEvent::SessionsListed { list_ok, listed }) => if list_ok && !listed {
            profile_fail_exec(s, ProfileError::NoSession)
        } else {
            (ProfileState { phase: ProfilePhase::MakingDirs, ..s }, ProfileAction::MakeDirs)
        },
        (ProfilePhase::CheckingServer, ProfileEvent::ServerAnswered { ok }) => if ok {
            (ProfileState { phase: ProfilePhase::MakingDirs, ..s }, ProfileAction::MakeDirs)
        } else {
            profile_fail_exec(s, ProfileError::NoServer)
        },
        (ProfilePhase::MakingDirs, ProfileEvent::DirsMade { ok }) => if !ok {
            profile_fail_exec(s, ProfileError::Dirs)
        } else if s.probe && !s.has_model {
            (ProfileState { phase: ProfilePhase::ResolvingModel, ..s }, ProfileAction::ResolveModel)
        } else {
            (ProfileState { phase: ProfilePhase::Window, ..s }, ProfileAction::RunWindow { probe: s.probe })
        },
        (ProfilePhase::ResolvingModel, ProfileEvent::ModelResolved { ok }) => if ok {
            (ProfileState { phase: ProfilePhase::Window, ..s }, ProfileAction::RunWindow { probe: s.probe })
        } else {
            profile_fail_exec(s, ProfileError::NoModel)
        },
        (ProfilePhase::Window, ProfileEvent::WindowDone { ok }) => if ok {
            (ProfileState { phase: ProfilePhase::Fetching, ..s }, ProfileAction::Fetch)
        } else {
            profile_fail_exec(s, ProfileError::Window)
        },
        (ProfilePhase::Fetching, ProfileEvent::Fetched { ok }) => if ok {
            (ProfileState { phase: ProfilePhase::Finished, ..s }, ProfileAction::Finish)
        } else {
            profile_fail_exec(s, ProfileError::Fetch)
        },
        _ => (s, ProfileAction::Ignore),
    }
}

/// The state and the actions after a sequence of events.
pub open spec fn profile_run(es: Seq<ProfileEvent>) -> (ProfileState, Seq<ProfileAction>)
    decreases es.len(),
{
    if es.len() == 0 {
        (profile_start(), seq![])
    } else {
        let (s, acts) = profile_run(es.drop_last());
        let (s2, a) = profile_step(s, es.last());
        (s2, acts.push(a))
    }
}

/// The window opens only after the preflight: in any run, every capture
/// window comes after the target was reached and the directories were
/// made, and a finished capture does nothing more.
pub proof fn lemma_window_after_preflight(es: Seq<ProfileEvent>)
    ensures
        ({
            let (s, acts) = profile_run(es);
            &&& acts.len() == es.len()
            &&& (s.phase == ProfilePhase::MakingDirs || s.phase == ProfilePhase::ResolvingModel
                || s.phase == ProfilePhase::Window || s.phase == ProfilePhase::Fetching) ==> exists|j: int|
                0 <= j < acts.len() && #[trigger] acts[j] == ProfileAction::MakeDirs
            &&& s.phase != ProfilePhase::Idle && s.phase != ProfilePhase::Reaching && s.phase
                != ProfilePhase::Finished ==> exists|j: int|
                0 <= j < acts.len() && #[trigger] es[j] == ProfileEvent::Reached { ok: true }
            &&& forall|k: int|
                0 <= k < acts.len() && (#[trigger] acts[k] is RunWindow) ==> {
                    &&& exists|j: int| 0 <= j < k && acts[j] == ProfileAction::MakeDirs
                    &&& exists|j: int| 0 <= j < k && es[j] == ProfileEvent::Reached { ok: true }
                }
        }),
    decreases es.len(),
{
    if es.len() > 0 {
        let pre = es.drop_last();
        lemma_window_after_preflight(pre);
        let (s, acts) = profile_run(pre);
        let (s2, a) = profile_step(s, es.last());
        let acts2 = acts.push(a);
        assert(profile_run(es) == (s2, acts2));
        let n = acts.len() as int;
        if s.phase == ProfilePhase::MakingDirs || s.phase == ProfilePhase::ResolvingModel || s.phase
            == ProfilePhase::Window || s.phase == ProfilePhase::Fetching {
            let j = choose|j: int| 0 <= j < acts.len() && #[trigger] acts[j] == ProfileAction::MakeDirs;
            assert(acts2[j] == acts[j]);
        }
        if s.phase != ProfilePhase::Idle && s.phase != ProfilePhase::Reaching && s.phase != ProfilePhase::Finished {
            let j = choose|j: int| 0 <= j < acts.len() && #[trigger] pre[j] == ProfileEvent::Reached { ok: true };
            assert(es[j] == pre[j]);
        }
        if s.phase == ProfilePhase::Reaching {
            assert(es[n] == es.last());
        }
        if a == ProfileAction::MakeDirs {
            assert(acts2[n] == ProfileAction::MakeDirs);
        }
        assert forall|k: int| 0 <= k < acts2.len() && (#[trigger] acts2[k] is RunWindow) implies {
            &&& exists|j: int| 0 <= j < k && acts2[j] == ProfileAction::MakeDirs
            &&& exists|j: int| 0 <= j < k && es[j] == ProfileEvent::Reached { ok: true }
        } by {
            if k < n {
                assert(acts2[k] == acts[k]);
                let j1 = choose|j: int| 0 <= j < k && acts[j] == ProfileAction::MakeDirs;
                assert(acts2[j1] == acts[j1]);
                let j2 = choose|j: int| 0 <= j < k && pre[j] == ProfileEvent::Reached { ok: true };
                assert(es[j2] == pre[j2]);
            } else {
                let j1 = choose|j: int| 0 <= j < acts.len() && #[trigger] acts[j] == ProfileAction::MakeDirs;
                assert(acts2[j1] == acts[j1]);
                let j2 = choose|j: int| 0 <= j < acts.len() && #[trigger] pre[j] == ProfileEvent::Reached { ok: true };
                assert(es[j2] == pre[j2]);
            }
        }
    }
}

/// An unknown tool, or one without an automated recipe, fails on the
/// first step and nothing after it acts on the target.
pub proof fn lemma_unknown_tool_touches_nothing(es: Seq<ProfileEvent>)
    requires
        es.len() >= 1,
        es[0] matches ProfileEvent::Begin { found, has_window, .. } && (!found || !has_window),
    ensures
        ({
            let (s, acts) = profile_run(es);
            &&& s.phase == ProfilePhase::Finished
            &&& acts[0] is Fail
            &&& forall|k: int| 1 <= k < acts.len() ==> #[trigger] acts[k] == ProfileAction::Ignore
        }),
    decreases es.len(),
{
    lemma_window_after_preflight(es);
    if es.len() == 1 {
        assert(es.drop_last() =~= Seq::<ProfileEvent>::empty());
    } else {
        let pre = es.drop_last();
        assert(pre[0] == es[0]);
        lemma_unknown_tool_touches_nothing(pre);
        lemma_window_after_preflight(pre);
        let (s, acts) = profile_run(pre);
        let (s2, a) = profile_step(s, es.last());
        let acts2 = acts.push(a);
        assert(profile_run(es) == (s2, acts2));
        assert(acts2[0] == acts[0]);
        assert forall|k: int| 1 <= k < acts2.len() implies #[trigger] acts2[k] == ProfileAction::Ignore by {
            if k < acts.len() {
                assert(acts2[k] == acts[k]);
            }
        }
    }
}

} // verus!
