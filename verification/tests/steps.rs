use kvlm::capture::{baselineDir, graphInput, GraphInputError, listedGraphs, rankGraphs, sortGraphs, sweepStep, GraphError, GraphRow, SweepAction, SweepEvent, SweepState};
use kvlm::collect::{
    collectStart, collectStep, profileStart, profileStep, CollectAction, CollectError, CollectEvent, CollectPhase,
    CollectState, ProfileAction, ProfileError, ProfileEvent, ProfilePhase, ProfileState,
};
use kvlm::driver::{apiKeyCredentials, resolveString, selectDriver, upStep, DriverError, UpAction, UpEvent, UpPhase, UpState};
use kvlm::model::show::{seqCell, toksCell};
use kvlm::deploy::{upMode, ModeError};
use kvlm::tuning::{applyGuard, ApplyRefusal};

fn collect_all(events: &[CollectEvent]) -> (CollectState, Vec<CollectAction>) {
    let mut s = collectStart();
    let mut acts = Vec::new();
    for e in events {
        let (s2, a) = collectStep(&s, *e);
        s = s2;
        acts.push(a);
    }
    (s, acts)
}

fn profile_all(events: &[ProfileEvent]) -> (ProfileState, Vec<ProfileAction>) {
    let mut s = profileStart();
    let mut acts = Vec::new();
    for e in events {
        let (s2, a) = profileStep(&s, *e);
        s = s2;
        acts.push(a);
    }
    (s, acts)
}

const BEGIN_AUTO: CollectEvent = CollectEvent::Begin { probe_set: false, probe_flag: false, has_model: false };

#[test]
fn collect_busy_server_gets_no_probe() {
    let (s, acts) = collect_all(&[
        BEGIN_AUTO,
        CollectEvent::Reached { ok: true },
        CollectEvent::Answered { ok: true },
        CollectEvent::DirMade { ok: true },
        CollectEvent::MetricsRead { ok: true, idle: false },
        CollectEvent::NsysChecked { present: true, list_ok: true, listed: true },
        CollectEvent::NsysDone { ok: true },
        CollectEvent::TorchStarted { ok: true },
        CollectEvent::TorchDone { ok: true },
        CollectEvent::AfterRead { ok: true },
        CollectEvent::TelemetryRead { ok: true },
    ]);
    assert!(acts[0] == CollectAction::CheckReach);
    assert!(acts[1] == CollectAction::Preflight);
    assert!(acts[2] == CollectAction::MakeRunDir);
    assert!(acts[3] == CollectAction::ReadMetrics);
    assert!(acts[4] == CollectAction::CheckNsys);
    assert!(acts[5] == CollectAction::RunNsysWindow { probe: false });
    assert!(acts[6] == CollectAction::StartTorch);
    assert!(acts[7] == CollectAction::RunTorchWindow { probe: false });
    // the sweep is skipped on live traffic
    assert!(acts[8] == CollectAction::ReadMetricsAfter);
    assert!(acts[9] == CollectAction::ReadTelemetry);
    assert!(acts[10] == CollectAction::Finish);
    assert!(s.phase == CollectPhase::Finished);
    assert!(!s.probe && s.nsys && s.torch && !s.bench && s.metrics && s.telemetry);
}

#[test]
fn collect_idle_server_is_probed() {
    let (s, acts) = collect_all(&[
        BEGIN_AUTO,
        CollectEvent::Reached { ok: true },
        CollectEvent::Answered { ok: true },
        CollectEvent::DirMade { ok: true },
        CollectEvent::MetricsRead { ok: true, idle: true },
        CollectEvent::ModelResolved { ok: true },
        CollectEvent::NsysChecked { present: false, list_ok: false, listed: false },
        CollectEvent::TorchStarted { ok: false },
        CollectEvent::BenchDone { ok: false },
        CollectEvent::AfterRead { ok: false },
        CollectEvent::TelemetryRead { ok: true },
    ]);
    assert!(acts[4] == CollectAction::ResolveModel);
    assert!(acts[5] == CollectAction::CheckNsys);
    // no nsys on the target: straight to the torch profiler
    assert!(acts[6] == CollectAction::StartTorch);
    // torch not armed: the sweep still runs on an idle server
    assert!(acts[7] == CollectAction::RunBench);
    assert!(acts[8] == CollectAction::ReadMetricsAfter);
    assert!(acts[10] == CollectAction::Finish);
    assert!(s.probe && !s.nsys && !s.torch && !s.bench && !s.metrics && s.telemetry);
}

#[test]
fn collect_flag_overrides_idleness() {
    // --probe=false on an idle server: no load
    let (_, acts) = collect_all(&[
        CollectEvent::Begin { probe_set: true, probe_flag: false, has_model: false },
        CollectEvent::Reached { ok: true },
        CollectEvent::Answered { ok: true },
        CollectEvent::DirMade { ok: true },
        CollectEvent::MetricsRead { ok: true, idle: true },
        CollectEvent::NsysChecked { present: true, list_ok: false, listed: false },
    ]);
    assert!(acts[4] == CollectAction::CheckNsys);
    // a failing session list still arms nsys
    assert!(acts[5] == CollectAction::RunNsysWindow { probe: false });
    // --probe on a busy server with the model named: load, no lookup
    let (_, acts) = collect_all(&[
        CollectEvent::Begin { probe_set: true, probe_flag: true, has_model: true },
        CollectEvent::Reached { ok: true },
        CollectEvent::Answered { ok: true },
        CollectEvent::DirMade { ok: true },
        CollectEvent::MetricsRead { ok: true, idle: false },
        CollectEvent::NsysChecked { present: true, list_ok: true, listed: false },
    ]);
    assert!(acts[4] == CollectAction::CheckNsys);
    // the session is not listed: nsys is skipped
    assert!(acts[5] == CollectAction::StartTorch);
}

#[test]
fn collect_failures() {
    let (s, acts) = collect_all(&[BEGIN_AUTO, CollectEvent::Reached { ok: false }, CollectEvent::Answered { ok: true }]);
    assert!(acts[1] == CollectAction::Fail(CollectError::Unreachable));
    assert!(acts[2] == CollectAction::Ignore);
    assert!(s.phase == CollectPhase::Finished);
    // a dead endpoint fails before anything is written
    let (_, acts) = collect_all(&[BEGIN_AUTO, CollectEvent::Reached { ok: true }, CollectEvent::Answered { ok: false }]);
    assert!(acts[2] == CollectAction::Fail(CollectError::NotServing));
    assert!(!acts.contains(&CollectAction::MakeRunDir));
    let (_, acts) = collect_all(&[
        BEGIN_AUTO,
        CollectEvent::Reached { ok: true },
        CollectEvent::Answered { ok: true },
        CollectEvent::DirMade { ok: false },
    ]);
    assert!(acts[3] == CollectAction::Fail(CollectError::RunDir));
    let (_, acts) = collect_all(&[
        BEGIN_AUTO,
        CollectEvent::Reached { ok: true },
        CollectEvent::Answered { ok: true },
        CollectEvent::DirMade { ok: true },
        CollectEvent::MetricsRead { ok: false, idle: true },
    ]);
    assert!(acts[4] == CollectAction::Fail(CollectError::NoMetrics));
    let (_, acts) = collect_all(&[
        BEGIN_AUTO,
        CollectEvent::Reached { ok: true },
        CollectEvent::Answered { ok: true },
        CollectEvent::DirMade { ok: true },
        CollectEvent::MetricsRead { ok: true, idle: true },
        CollectEvent::ModelResolved { ok: false },
    ]);
    assert!(acts[5] == CollectAction::Fail(CollectError::NoModel));
    let (_, acts) = collect_all(&[
        BEGIN_AUTO,
        CollectEvent::Reached { ok: true },
        CollectEvent::Answered { ok: true },
        CollectEvent::DirMade { ok: true },
        CollectEvent::MetricsRead { ok: true, idle: false },
        CollectEvent::NsysChecked { present: true, list_ok: true, listed: true },
        CollectEvent::NsysDone { ok: false },
    ]);
    assert!(acts[6] == CollectAction::Fail(CollectError::NsysWindow));
    let (_, acts) = collect_all(&[
        BEGIN_AUTO,
        CollectEvent::Reached { ok: true },
        CollectEvent::Answered { ok: true },
        CollectEvent::DirMade { ok: true },
        CollectEvent::MetricsRead { ok: true, idle: false },
        CollectEvent::NsysChecked { present: false, list_ok: true, listed: true },
        CollectEvent::TorchStarted { ok: true },
        CollectEvent::TorchDone { ok: false },
    ]);
    assert!(acts[7] == CollectAction::Fail(CollectError::TorchStop));
}

#[test]
fn profile_unknown_tool_and_no_recipe() {
    let (s, acts) = profile_all(&[
        ProfileEvent::Begin { found: false, has_window: true, nsys: false, probe: false, has_model: false },
        ProfileEvent::Reached { ok: true },
    ]);
    assert!(acts[0] == ProfileAction::Fail(ProfileError::UnknownTool));
    assert!(acts[1] == ProfileAction::Ignore);
    assert!(s.phase == ProfilePhase::Finished);
    let (_, acts) = profile_all(&[ProfileEvent::Begin {
        found: true,
        has_window: false,
        nsys: false,
        probe: false,
        has_model: false,
    }]);
    assert!(acts[0] == ProfileAction::Fail(ProfileError::NoRecipe));
}

#[test]
fn profile_nsys_preflight() {
    let begin = ProfileEvent::Begin { found: true, has_window: true, nsys: true, probe: true, has_model: false };
    let (_, acts) = profile_all(&[begin, ProfileEvent::Reached { ok: false }]);
    assert!(acts[1] == ProfileAction::Fail(ProfileError::Unreachable));
    let (_, acts) = profile_all(&[begin, ProfileEvent::Reached { ok: true }, ProfileEvent::BinaryFound { ok: false }]);
    assert!(acts[1] == ProfileAction::CheckBinary);
    assert!(acts[2] == ProfileAction::Fail(ProfileError::NsysMissing));
    let (_, acts) = profile_all(&[
        begin,
        ProfileEvent::Reached { ok: true },
        ProfileEvent::BinaryFound { ok: true },
        ProfileEvent::SessionsListed { list_ok: true, listed: false },
    ]);
    assert!(acts[3] == ProfileAction::Fail(ProfileError::NoSession));
    // an nsys without `sessions list` goes ahead
    let (s, acts) = profile_all(&[
        begin,
        ProfileEvent::Reached { ok: true },
        ProfileEvent::BinaryFound { ok: true },
        ProfileEvent::SessionsListed { list_ok: false, listed: false },
        ProfileEvent::DirsMade { ok: true },
        ProfileEvent::ModelResolved { ok: true },
        ProfileEvent::WindowDone { ok: true },
        ProfileEvent::Fetched { ok: true },
    ]);
    assert!(acts[3] == ProfileAction::MakeDirs);
    assert!(acts[4] == ProfileAction::ResolveModel);
    assert!(acts[5] == ProfileAction::RunWindow { probe: true });
    assert!(acts[6] == ProfileAction::Fetch);
    assert!(acts[7] == ProfileAction::Finish);
    assert!(s.phase == ProfilePhase::Finished);
}

#[test]
fn profile_endpoint_tool() {
    let begin = ProfileEvent::Begin { found: true, has_window: true, nsys: false, probe: false, has_model: false };
    let (_, acts) = profile_all(&[begin, ProfileEvent::Reached { ok: true }, ProfileEvent::ServerAnswered { ok: false }]);
    assert!(acts[1] == ProfileAction::CheckServer);
    assert!(acts[2] == ProfileAction::Fail(ProfileError::NoServer));
    let (_, acts) = profile_all(&[
        begin,
        ProfileEvent::Reached { ok: true },
        ProfileEvent::ServerAnswered { ok: true },
        ProfileEvent::DirsMade { ok: true },
        ProfileEvent::WindowDone { ok: false },
    ]);
    assert!(acts[3] == ProfileAction::RunWindow { probe: false });
    assert!(acts[4] == ProfileAction::Fail(ProfileError::Window));
    let (_, acts) = profile_all(&[begin, ProfileEvent::Reached { ok: true }, ProfileEvent::ServerAnswered { ok: true }, ProfileEvent::DirsMade { ok: false }]);
    assert!(acts[3] == ProfileAction::Fail(ProfileError::Dirs));
    let (_, acts) = profile_all(&[
        ProfileEvent::Begin { found: true, has_window: true, nsys: false, probe: true, has_model: false },
        ProfileEvent::Reached { ok: true },
        ProfileEvent::ServerAnswered { ok: true },
        ProfileEvent::DirsMade { ok: true },
        ProfileEvent::ModelResolved { ok: false },
    ]);
    assert!(acts[4] == ProfileAction::Fail(ProfileError::NoModel));
    let (_, acts) = profile_all(&[
        begin,
        ProfileEvent::Reached { ok: true },
        ProfileEvent::ServerAnswered { ok: true },
        ProfileEvent::DirsMade { ok: true },
        ProfileEvent::WindowDone { ok: true },
        ProfileEvent::Fetched { ok: false },
    ]);
    assert!(acts[5] == ProfileAction::Fail(ProfileError::Fetch));
}

#[test]
fn up_records_before_polling() {
    let mut s = UpState { phase: UpPhase::Idle, production: false, tries: 0 };
    let (s1, a) = upStep(&s, UpEvent::Begin { has_pubkey: true, production: true });
    assert!(a == UpAction::Deploy);
    let (s2, a) = upStep(&s1, UpEvent::Deployed { has_pod_id: true });
    assert!(a == UpAction::Record);
    let (s3, a) = upStep(&s2, UpEvent::Recorded);
    assert!(a == UpAction::Poll { wait_s: 20, http: true });
    s = s3;
    let mut polls = 1;
    loop {
        let (s4, a) = upStep(&s, UpEvent::Polled { ready: false });
        s = s4;
        if a == UpAction::GiveUp {
            break;
        }
        assert!(a == UpAction::Poll { wait_s: 20, http: true });
        polls += 1;
    }
    assert_eq!(polls, 90);
    assert!(s.phase == UpPhase::Finished);
}

#[test]
fn up_profile_mode_and_failures() {
    let idle = UpState { phase: UpPhase::Idle, production: false, tries: 0 };
    let (s, a) = upStep(&idle, UpEvent::Begin { has_pubkey: false, production: false });
    assert!(a == UpAction::FailNoKey);
    assert!(s.phase == UpPhase::Finished);
    let (s1, _) = upStep(&idle, UpEvent::Begin { has_pubkey: true, production: false });
    let (_, a) = upStep(&s1, UpEvent::DeployFailed);
    assert!(a == UpAction::FailDeploy);
    let (_, a) = upStep(&s1, UpEvent::Deployed { has_pod_id: false });
    assert!(a == UpAction::FailNoPodId);
    let (s2, _) = upStep(&s1, UpEvent::Deployed { has_pod_id: true });
    let (s3, a) = upStep(&s2, UpEvent::Recorded);
    assert!(a == UpAction::Poll { wait_s: 15, http: false });
    let (_, a) = upStep(&s3, UpEvent::Polled { ready: true });
    assert!(a == UpAction::SshReady);
    // a poll before the pod is recorded is ignored
    let (_, a) = upStep(&s2, UpEvent::Polled { ready: true });
    assert!(a == UpAction::Ignore);
}

#[test]
fn sweep_levels_in_order() {
    let mut s = SweepState::Idle;
    let mut probes = Vec::new();
    let mut acts = Vec::new();
    for _ in 0..12 {
        let (s2, a) = sweepStep(&s, SweepEvent::Succeeded);
        if let SweepAction::RunProbe { conc, secs, max_tokens } = a {
            assert_eq!((secs, max_tokens), (18, 256));
            probes.push(conc);
        }
        acts.push(a);
        s = s2;
    }
    assert_eq!(probes, vec![1, 8, 32]);
    assert!(acts[0] == SweepAction::UploadProbe);
    assert!(acts[11] == SweepAction::StartPressure { streams: 48, secs: 45, max_tokens: 2048 });
    let (s2, a) = sweepStep(&s, SweepEvent::Succeeded);
    assert!(a == SweepAction::Sample { wait_s: 5 });
    let (s3, a) = sweepStep(&s2, SweepEvent::Sampled { elapsed_s: 30 });
    assert!(a == SweepAction::Sample { wait_s: 5 });
    // a failed action mid-pressure is tolerated
    let (s3, a2) = sweepStep(&s3, SweepEvent::Failed);
    assert!(a2 == SweepAction::Ignore);
    let (s4, a) = sweepStep(&s3, SweepEvent::Sampled { elapsed_s: 48 });
    assert!(a == SweepAction::FetchSnapshot);
    let (s5, a) = sweepStep(&s4, SweepEvent::Succeeded);
    assert!(a == SweepAction::WriteSweep);
    let (s6, a) = sweepStep(&s5, SweepEvent::Succeeded);
    assert!(a == SweepAction::Finish);
    assert!(s6 == SweepState::Finished);
    // a failed probe ends the sweep
    let (s7, a) = sweepStep(&SweepState::Probing(1), SweepEvent::Failed);
    assert!(a == SweepAction::Fail && s7 == SweepState::Finished);
}

#[test]
fn sort_graphs_keeps_ties_in_order() {
    let gs = vec![
        GraphRow { ID: 1, Nodes: 5, Replays: 1, TotalNs: 300 },
        GraphRow { ID: 2, Nodes: 5, Replays: 1, TotalNs: 700 },
        GraphRow { ID: 3, Nodes: 5, Replays: 1, TotalNs: 300 },
        GraphRow { ID: 4, Nodes: 5, Replays: 1, TotalNs: 700 },
        GraphRow { ID: 5, Nodes: 5, Replays: 1, TotalNs: 300 },
    ];
    let ids: Vec<i64> = sortGraphs(gs).iter().map(|g| g.ID).collect();
    assert_eq!(ids, vec![2, 4, 1, 3, 5]);
}

#[test]
fn variants_table_cells() {
    assert_eq!(toksCell(1234, Some(999)), "1234");
    assert_eq!(toksCell(0, Some(1234)), "~1200");
    assert_eq!(toksCell(0, Some(87)), "~87");
    assert_eq!(toksCell(-1, None), "-");
    // a point beyond --max-model-len, or no KV size there
    assert_eq!(seqCell(65536, Some(32768), Some(16), Some(40)), "-");
    assert_eq!(seqCell(8192, None, None, None), "-");
    assert_eq!(seqCell(0, None, None, Some(5)), "-");
    // the recipe's --max-num-seqs caps the pool, bare
    assert_eq!(seqCell(8192, Some(32768), Some(16), Some(40)), "16");
    // otherwise the pool's estimate, with a tilde
    assert_eq!(seqCell(8192, None, Some(64), Some(40)), "~40");
    assert_eq!(seqCell(8192, None, None, Some(1234)), "~1200");
    assert_eq!(seqCell(8192, None, None, Some(0)), "0");
}

#[test]
fn graphs_ranked_and_listed() {
    assert!(rankGraphs(vec![]) == Err(GraphError::NoGraphNodes));
    let gs: Vec<GraphRow> = (1..=10).map(|i| GraphRow { ID: i, Nodes: 3, Replays: 1, TotalNs: i * 10 }).collect();
    let ranked = rankGraphs(gs).ok().unwrap();
    assert_eq!(ranked[0].ID, 10);
    let listed = listedGraphs(&ranked);
    let ids: Vec<i64> = listed.iter().map(|g| g.ID).collect();
    assert_eq!(ids, vec![10, 9, 8, 7, 6, 5, 4, 3]);
    let few = vec![GraphRow { ID: 4, Nodes: 1, Replays: 1, TotalNs: 1 }];
    assert_eq!(listedGraphs(&few).len(), 1);
}

#[test]
fn driver_selection_and_credentials() {
    let names = vec!["k8s".to_string(), "runpod".to_string(), "vastai".to_string()];
    assert!(selectDriver("", "", "", "", &names) == Err(DriverError::NoneSelected));
    assert!(selectDriver("lambda", "runpod", "", "", &names) == Err(DriverError::Unknown));
    assert!(selectDriver("", "runpod", "k8s", "", &names) == Ok("runpod".to_string()));
    assert!(selectDriver("", "", "", "vastai", &names) == Ok("vastai".to_string()));
    assert_eq!(resolveString(Some("from-env"), "from-config"), "from-env");
    assert_eq!(resolveString(Some(""), "from-config"), "from-config");
    assert_eq!(resolveString(None, "from-config"), "from-config");
    assert!(apiKeyCredentials(None, "").is_none());
    let c = apiKeyCredentials(None, "rpa_key").unwrap();
    assert_eq!(c.APIKey, "rpa_key");
    assert_eq!(c.Namespace, "");
}

#[test]
fn command_guards() {
    assert!(upMode("production") == Ok(true));
    assert!(upMode("profile") == Ok(false));
    assert!(upMode("Production") == Err(ModeError::UnknownMode));
    assert!(upMode("") == Err(ModeError::UnknownMode));
    assert!(applyGuard(false, "profile", "root@1.2.3.4", false, 1) == Err(ApplyRefusal::NoTarget));
    assert!(applyGuard(true, "production", "root@1.2.3.4", false, 1) == Err(ApplyRefusal::NotLaunchedForProfiling));
    assert!(applyGuard(true, "profile", "", false, 1) == Err(ApplyRefusal::NotLaunchedForProfiling));
    assert!(applyGuard(true, "profile", "root@1.2.3.4", true, 2) == Err(ApplyRefusal::ResetWithArgs));
    assert!(applyGuard(true, "profile", "root@1.2.3.4", true, 0) == Ok(()));
    assert!(applyGuard(true, "profile", "root@1.2.3.4", false, 1) == Ok(()));
    assert!(graphInput("") == Err(GraphInputError::MissingInput));
    assert!(graphInput("out/run1/win.nsys-rep") == Ok(("out/run1/win.sqlite".to_string(), true)));
    assert!(graphInput("out/run1/win.sqlite") == Ok(("out/run1/win.sqlite".to_string(), false)));
    assert_eq!(baselineDir("run3"), Some("profile-output/run3".to_string()));
    assert_eq!(baselineDir("../etc"), None);
    assert_eq!(baselineDir("a/b"), None);
    assert_eq!(baselineDir(""), None);
}
