use kvlm::capture::{
    boundBy, comparisonGraph, effectiveConfig, foldKernels, parseGraphRows, timelineSeries, regimeName, sortGraphs, GraphRow, KernelTime, Regime,
};
use kvlm::flamegraph::ParseFolded;

fn strs(v: &[&str]) -> Vec<String> {
    v.iter().map(|s| s.to_string()).collect()
}

#[test]
fn regimes() {
    assert!(boundBy(64, Some(64), 3, 950) == Regime::MaxNumSeqs);
    assert!(boundBy(48, Some(64), 0, 900) == Regime::Kv);
    assert!(boundBy(48, Some(64), 2, 100) == Regime::Kv);
    assert!(boundBy(48, None, 0, 899) == Regime::Neither);
    assert!(boundBy(100, None, 0, 0) == Regime::Neither);
    assert_eq!(regimeName(Regime::MaxNumSeqs), "max-num-seqs");
    assert_eq!(regimeName(Regime::Kv), "kv");
    assert_eq!(regimeName(Regime::Neither), "none");
}

#[test]
fn graph_inventory() {
    let rows = strs(&["7\t100\t1000\t500", "8\t0\t5\t9", "short\t1", "9\t100\t300\t900", "10\t50\t50\t900", "11\tx\t1\t1"]);
    let gs = parseGraphRows(&rows);
    assert_eq!(gs.len(), 3);
    assert!(gs[0] == GraphRow { ID: 7, Nodes: 100, Replays: 10, TotalNs: 500 });
    let sorted = sortGraphs(gs);
    let ids: Vec<i64> = sorted.iter().map(|g| g.ID).collect();
    assert_eq!(ids, vec![9, 10, 7]);
    // same roster as the primary (100 nodes) under another id
    assert_eq!(comparisonGraph(&sorted), 7);
    let lone = vec![GraphRow { ID: 1, Nodes: 3, Replays: 1, TotalNs: 1 }];
    assert_eq!(comparisonGraph(&lone), 0);
}

fn kt(scope: &str, name: &str, grid: &str, ns: i64) -> KernelTime {
    KernelTime { Scope: scope.into(), Name: name.into(), Grid: grid.into(), Ns: ns }
}

#[test]
fn folded_kernel_time() {
    let rows = vec![
        kt("eager", "gemm", "1x1x1", 10),
        kt("in cuda graph", "attn", "4x1x1", 5),
        kt("eager", "gemm", "2x1x1", 7),
        kt("eager", "gemm", "1x1x1", 1),
    ];
    let folded = foldKernels(&rows);
    assert_eq!(folded, "eager;gemm;grid_1x1x1 11\nin cuda graph;attn 5\neager;gemm;grid_2x1x1 7\n");
    let fg = ParseFolded(&folded);
    assert_eq!(fg.Total, 23);
}

#[test]
fn graph_row_numbers_read_like_atoi() {
    // numbers past the int range saturate; text that is no number reads 0
    let rows = strs(&["1\t2\t99999999999999999999\t-99999999999999999999", "2\t4\tx\t+12"]);
    let gs = parseGraphRows(&rows);
    assert_eq!(gs.len(), 2);
    assert!(gs[0] == GraphRow { ID: 1, Nodes: 2, Replays: i64::MAX / 2, TotalNs: i64::MIN });
    assert!(gs[1] == GraphRow { ID: 2, Nodes: 4, Replays: 0, TotalNs: 12 });
}

fn kv(pairs: &[(&str, &str)]) -> Vec<(String, String)> {
    pairs.iter().map(|(k, v)| (k.to_string(), v.to_string())).collect()
}

#[test]
fn effective_config_prefers_resolved_then_explicit_then_catalog() {
    let keys = strs(&["max_num_seqs", "block_size", "enable_prefix_caching", "kv_cache_dtype"]);
    let resolved = kv(&[("max_num_seqs", "64"), ("block_size", "")]);
    let explicit = kv(&[("block_size", "32"), ("enable_prefix_caching", "")]);
    let catalog = kv(&[("block_size", "16"), ("enable_prefix_caching", "False"), ("max_num_seqs", "256")]);
    assert_eq!(
        effectiveConfig(&keys, &resolved, &explicit, &catalog),
        kv(&[("max_num_seqs", "64"), ("block_size", "32"), ("enable_prefix_caching", "False")])
    );
    assert!(effectiveConfig(&keys, &Vec::new(), &Vec::new(), &Vec::new()).is_empty());
}

#[test]
fn timeline_series_fills_and_clamps() {
    let rows = strs(&["0\t0\t500", "0\t2\t1500", "1\t1\t200", "1\t300\t5", "x"]);
    assert_eq!(
        timelineSeries(&rows, 1000, 240),
        "{\"device\": 0, \"busy\": [50,0,100]}, {\"device\": 1, \"busy\": [0,20]}"
    );
    assert_eq!(timelineSeries(&Vec::new(), 1000, 240), "");
}
