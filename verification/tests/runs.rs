use kvlm::runs::{deltaOrigins, deltaString, flagRows, mergeConfig, nextRunName, resolveRunName, runNames, runNumber, shipArgv, RunRefError};

fn strs(v: &[&str]) -> Vec<String> {
    v.iter().map(|s| s.to_string()).collect()
}

fn pairs(v: &[(&str, &str)]) -> Vec<(String, String)> {
    v.iter().map(|(a, b)| (a.to_string(), b.to_string())).collect()
}

#[test]
fn run_numbers() {
    assert_eq!(runNumber("run12"), 12);
    assert_eq!(runNumber("run0"), 0);
    assert_eq!(runNumber("run"), -1);
    assert_eq!(runNumber("x1"), -1);
    assert_eq!(runNumber("run1a"), -1);
}

#[test]
fn run_names_in_numeric_order() {
    let names = runNames(&strs(&["run10", "run2", "notes", "run01", "pending.json"]));
    assert_eq!(names, strs(&["run1", "run2", "run10"]));
    assert!(runNames(&Vec::new()).is_empty());
}

#[test]
fn resolve_references() {
    let names = strs(&["run3", "notes", "run1", "run2"]);
    assert_eq!(resolveRunName(&names, "latest").ok(), Some("run3".to_string()));
    assert_eq!(resolveRunName(&names, "last").ok(), Some("run3".to_string()));
    assert_eq!(resolveRunName(&names, "").ok(), Some("run3".to_string()));
    assert_eq!(resolveRunName(&names, "-1").ok(), Some("run2".to_string()));
    assert_eq!(resolveRunName(&names, "-2").ok(), Some("run1".to_string()));
    assert_eq!(resolveRunName(&names, "3").ok(), Some("run3".to_string()));
    assert!(matches!(resolveRunName(&names, "7"), Err(RunRefError::NotCollected)));
    assert!(matches!(resolveRunName(&names, "run7"), Err(RunRefError::NotCollected)));
    assert_eq!(resolveRunName(&names, "run2").ok(), Some("run2".to_string()));
    assert!(matches!(resolveRunName(&names, "-3"), Err(RunRefError::PastFirst(3))));
    assert!(matches!(resolveRunName(&names, "-0"), Err(RunRefError::BadReference)));
    assert!(matches!(resolveRunName(&names, "-x"), Err(RunRefError::BadReference)));
    assert!(matches!(resolveRunName(&names, "abc"), Err(RunRefError::BadForm)));
    assert!(matches!(resolveRunName(&Vec::new(), "latest"), Err(RunRefError::NoRuns)));
    assert!(matches!(resolveRunName(&strs(&["notes"]), "latest"), Err(RunRefError::NoRuns)));
}

#[test]
fn resolve_requires_the_directory_itself() {
    // run07 is run 7, but the directory "run7" does not exist
    let dirs = strs(&["run07", "run2"]);
    assert_eq!(resolveRunName(&dirs, "run07").ok(), Some("run07".to_string()));
    assert!(matches!(resolveRunName(&dirs, "run7"), Err(RunRefError::NotCollected)));
    assert!(matches!(resolveRunName(&dirs, "7"), Err(RunRefError::NotCollected)));
    assert!(matches!(resolveRunName(&dirs, "latest"), Err(RunRefError::NotCollected)));
    assert_eq!(resolveRunName(&dirs, "-1").ok(), Some("run2".to_string()));
    assert_eq!(resolveRunName(&dirs, "2").ok(), Some("run2".to_string()));
}

#[test]
fn delta_text() {
    assert_eq!(deltaString(&pairs(&[("max-num-seqs", "64"), ("tp", "2")])), "max-num-seqs=64 tp=2");
    assert_eq!(deltaString(&Vec::new()), "");
}

#[test]
fn ship_argv_from_capture() {
    let data = "header\nargv: /usr/bin/python -m vllm serve Qwen/Qwen3 --max-model-len 32768 --profiler-config {\"torch_profiler_dir\": \"/tmp/x\", \"a\": 1} --tensor-parallel-size 2\nother\n";
    assert_eq!(
        shipArgv(data),
        Some(strs(&["Qwen/Qwen3", "--max-model-len", "32768", "--tensor-parallel-size", "2"]))
    );
    assert_eq!(shipArgv("argv: vllm run x\n"), None);
    assert_eq!(shipArgv("nothing here"), None);
    assert_eq!(shipArgv("argv: vllm serve\nargv: vllm serve m\n"), Some(strs(&["m"])));
}

#[test]
fn merge_config_resolved_wins() {
    let resolved = pairs(&[("max_model_len", "32768"), ("dtype", "auto")]);
    let explicit = pairs(&[("max_num_seqs", "64"), ("dtype", "bf16"), ("max_num_seqs", "8")]);
    assert_eq!(
        mergeConfig(&resolved, &explicit),
        pairs(&[("max_model_len", "32768"), ("dtype", "auto"), ("max_num_seqs", "64")])
    );
}

#[test]
fn delta_origins_newer_runs_win() {
    let chain = vec![
        ("run3".to_string(), strs(&["max-num-seqs"])),
        ("run2".to_string(), strs(&["max-num-seqs", "kv-cache-dtype"])),
        ("run1".to_string(), Vec::new()),
    ];
    let mut got = deltaOrigins(&chain);
    got.sort();
    assert_eq!(got, pairs(&[("--kv-cache-dtype", "run2"), ("--max-num-seqs", "run3")]));
}

#[test]
fn run_names_read_back_and_bare_numbers() {
    for n in [0i64, 7, 12, 9_223_372_036_854_775_807] {
        assert_eq!(runNumber(&format!("run{}", n)), n);
    }
    let names: Vec<String> = vec!["run1".to_string(), "run4".to_string()];
    for n in [1i64, 4] {
        let bare = resolveRunName(&names, &n.to_string()).ok();
        let named = resolveRunName(&names, &format!("run{}", n)).ok();
        assert_eq!(bare, Some(format!("run{}", n)));
        assert_eq!(bare, named);
    }
    assert!(matches!(resolveRunName(&names, "99"), Err(RunRefError::NotCollected)));
}

#[test]
fn next_run_names() {
    let cases: &[(&[&str], &str)] = &[
        (&[], "run1"),
        (&["run2", "run3", "run4"], "run5"),
        (&["run9", "run10"], "run11"),
        (&["run4", "imported-thing", "SUMMARY.md"], "run5"),
    ];
    for (existing, want) in cases.iter() {
        assert_eq!(nextRunName(&strs(existing)), *want);
    }
}

fn kv(pairs: &[(&str, &str)]) -> Vec<(String, String)> {
    pairs.iter().map(|(k, v)| (k.to_string(), v.to_string())).collect()
}

#[test]
fn run_diff_flag_lines() {
    let keys: Vec<String> = ["max_num_seqs", "gpu_memory_utilization", "block_size", "enable_prefix_caching"]
        .iter()
        .map(|s| s.to_string())
        .collect();
    let a = kv(&[("max_num_seqs", "32"), ("block_size", "16"), ("enable_prefix_caching", "True")]);
    let b = kv(&[("max_num_seqs", "64"), ("block_size", "16"), ("max_num_seqs", "99")]);
    assert_eq!(
        flagRows("0.25.0", "0.26.0", &keys, &a, &b),
        vec!["  vllm: 0.25.0 -> 0.26.0", "  max_num_seqs: 32 -> 64", "  enable_prefix_caching: True -> "]
    );
    assert_eq!(flagRows("0.26.0", "0.26.0", &keys, &a, &a), Vec::<String>::new());
    assert_eq!(flagRows("", "0.26.0", &keys, &a, &b), Vec::<String>::new());
}
