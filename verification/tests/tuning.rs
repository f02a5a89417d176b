use kvlm::tuning::{
    artifactContentType, fmtUptime, goalString, padLeft, jsonEsc, keyPart, leverKey, parseDelta, parseGoalBody, splitGoal,
    DeltaError, GoalError,
};

fn strs(v: &[&str]) -> Vec<String> {
    v.iter().map(|s| s.to_string()).collect()
}

#[test]
fn parse_delta_later_args_win() {
    let mut d = match parseDelta(&strs(&["max_num_seqs=64", "--tp=2", "max-num-seqs=32"]), None) {
        Ok(d) => d,
        Err(_) => panic!("valid delta"),
    };
    d.sort();
    assert_eq!(
        d,
        vec![("max-num-seqs".to_string(), "32".to_string()), ("tensor-parallel-size".to_string(), "2".to_string())]
    );
}

#[test]
fn parse_delta_errors() {
    assert!(matches!(parseDelta(&strs(&[]), None), Err(DeltaError::NothingToApply)));
    match parseDelta(&strs(&["max-num-seqs=1", "=5"]), None) {
        Err(DeltaError::NotFlagValue(s)) => assert_eq!(s, "=5"),
        _ => panic!("=5 is not flag=value"),
    }
    match parseDelta(&strs(&["novalue"]), None) {
        Err(DeltaError::NotFlagValue(s)) => assert_eq!(s, "novalue"),
        _ => panic!("no = sign"),
    }
    let catalog = strs(&["max_num_seqs", "gpu_memory_utilization"]);
    match parseDelta(&strs(&["max-num-seqs=8", "foo_bar=1"]), Some(&catalog)) {
        Err(DeltaError::UnknownFlag(s)) => assert_eq!(s, "foo-bar"),
        _ => panic!("foo-bar is not in the catalog"),
    }
    assert!(parseDelta(&strs(&["tp=4", "gpu_memory_utilization=0.9"]), Some(&catalog)).is_ok());
}

#[test]
fn goals() {
    match splitGoal("per-stream@32=20", true) {
        Ok((g, v)) => assert_eq!((g.as_str(), v.as_str()), ("per-stream@32", "20")),
        Err(_) => panic!("floor has a value"),
    }
    assert!(matches!(splitGoal("total@32", true), Err(GoalError::NeedsValue)));
    match splitGoal("total@32", false) {
        Ok((g, v)) => assert_eq!((g.as_str(), v.as_str()), ("total@32", "")),
        Err(_) => panic!("plain goal"),
    }
    match parseGoalBody("total@32") {
        Ok((m, c)) => assert_eq!((m.as_str(), c), ("total", 32)),
        Err(_) => panic!("valid goal"),
    }
    match parseGoalBody("tput@3") {
        Err(GoalError::BadMetric(m)) => assert_eq!(m, "tput"),
        _ => panic!("bad metric"),
    }
    assert!(matches!(parseGoalBody("total@0"), Err(GoalError::BadConcurrency)));
    assert!(matches!(parseGoalBody("total@x"), Err(GoalError::BadConcurrency)));
    assert!(matches!(parseGoalBody("total"), Err(GoalError::NotMetricAtConcurrency)));
    assert!(matches!(parseGoalBody("@3"), Err(GoalError::NotMetricAtConcurrency)));
    assert_eq!(goalString("per-stream", 8), "per-stream@8");
}

#[test]
fn uptime_text() {
    assert_eq!(fmtUptime(0), "-");
    assert_eq!(fmtUptime(-5), "-");
    assert_eq!(fmtUptime(42), "42s");
    assert_eq!(fmtUptime(125), "2m");
    assert_eq!(fmtUptime(3_700), "1h1m");
    assert_eq!(fmtUptime(90_061), "1d1h");
}

#[test]
fn small_text_helpers() {
    assert_eq!(keyPart("ssh-ed25519 AAAAC3Nz user@host"), "AAAAC3Nz");
    assert_eq!(keyPart("bare"), "bare");
    assert_eq!(leverKey("--max-num-seqs 64"), "max_num_seqs");
    assert_eq!(leverKey("-tp 2"), "tensor_parallel_size");
    assert_eq!(leverKey("raise memory"), "");
    assert_eq!(artifactContentType("gpu-time.svg"), "image/svg+xml");
    assert_eq!(artifactContentType("report.md"), "text/plain; charset=utf-8");
    assert_eq!(artifactContentType("sweep.json"), "application/json");
    assert_eq!(artifactContentType("run1.kvlm"), "application/gzip");
    assert_eq!(artifactContentType("win.nsys-rep"), "application/octet-stream");
    assert_eq!(jsonEsc("a\\b\"c\nd"), "a\\\\b\\\"c d");
}

#[test]
fn goal_text_reads_back() {
    for (metric, conc) in [("total", 32i64), ("per-stream", 1), ("total", 9_223_372_036_854_775_807)] {
        let text = goalString(metric, conc);
        match parseGoalBody(&text) {
            Ok((m, c)) => {
                assert_eq!(m, metric);
                assert_eq!(c, conc);
            }
            Err(_) => panic!("goal {} did not read back", text),
        }
    }
}

#[test]
fn pad_left_right_aligns() {
    assert_eq!(padLeft("32", 7), "     32");
    assert_eq!(padLeft("1442.5", 6), "1442.5");
    assert_eq!(padLeft("toolong", 3), "toolong");
    assert_eq!(padLeft("", 2), "  ");
    // the width counts bytes
    assert_eq!(padLeft("é", 3), " é");
}
