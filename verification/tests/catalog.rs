use kvlm::model::catalog::Catalog;
use kvlm::model::display::{fmtGB, fmtKB, fmtTokens, kvLine, kvLineReady, round2sig, round2sigReady};
use kvlm::model::show::{showReady, vramReady};
use kvlm::model::families::{builtin, empty_family, empty_model};
use kvlm::model::kv::{kvCacheBytesChecked, KVCacheBytes};
use kvlm::model::{Family, Model};

fn model(name: &str) -> Model {
    let cat = builtin();
    let (_, m) = cat.Find(name).expect("model in catalog");
    m.clone()
}

#[test]
fn readme_qwen38_overview() {
    let cat = builtin();
    let (f, m) = cat.Find("qwen3.8-27b").expect("catalog has qwen3.8-27b");
    assert_eq!(f.Name, "qwen");
    assert_eq!(m.Size, "27B");
    assert_eq!(m.FormatArch(), "dense, multimodal");
    assert_eq!(m.FormatContext(), "256K native, 976.6K max (YaRN)");
    let weights: Vec<String> = m.Variants.iter().map(|v| v.FormatWeights()).collect();
    assert_eq!(weights, vec!["28 GB", "55 GB", "25 GB"]);
    assert_eq!(kvLine(m), "8.7 GB at 256K (KDA, fp8 KV)");
}

#[test]
fn fmt_helpers_exact_values() {
    assert_eq!(fmtGB(4_294_967_296), "4.3 GB");
    assert_eq!(fmtGB(0), "0 GB");
    assert_eq!(fmtGB(-10), "-0 GB");
    assert_eq!(fmtGB(150_000_000), "0.2 GB");
    assert_eq!(fmtGB(1_450_000_000), "1.5 GB");
    assert_eq!(fmtKB(131_072), "131.1 KB");
    assert_eq!(fmtKB(12_288), "12.3 KB");
    assert_eq!(fmtTokens(32768), "32K");
    assert_eq!(fmtTokens(1_048_576), "1M");
    assert_eq!(fmtTokens(1_310_720), "1.3M");
    assert_eq!(fmtTokens(1_363_149), "1.3M");
    assert_eq!(fmtTokens(1_415_578), "1.4M");
    assert_eq!(fmtTokens(1_000_000), "976.6K");
    assert_eq!(fmtTokens(0), "0K");
    assert_eq!(fmtTokens(1536), "1.5K");
    assert_eq!(fmtTokens(1), "0K");
    assert_eq!(fmtTokens(-1024), "-1K");
    assert_eq!(fmtTokens(-512), "-0.5K");
    assert_eq!(fmtTokens(i64::MAX), "8796093022208M");
    assert_eq!(round2sig(137), 140);
    assert_eq!(round2sig(99), 99);
    assert_eq!(round2sig(-7), -7);
    assert_eq!(round2sig(1449), 1400);
    assert_eq!(round2sig(1450), 1500);
    assert_eq!(round2sig(995), 1000);
}

#[test]
fn weights_text_forms() {
    let mut v = model("qwen3-32b").Variants[0].clone();
    v.WeightsDeciGB = 640;
    assert_eq!(v.FormatWeights(), "64 GB");
    v.WeightsDeciGB = 47;
    assert_eq!(v.FormatWeights(), "~5 GB");
    v.WeightsDeciGB = 128;
    assert_eq!(v.FormatWeights(), "~13 GB");
    v.WeightsDeciGB = 16000;
    assert_eq!(v.FormatWeights(), "~1.6 TB");
    v.WeightsDeciGB = 10000;
    assert_eq!(v.FormatWeights(), "~1 TB");
    v.WeightsDeciGB = 0;
    assert_eq!(v.FormatWeights(), "");
}

#[test]
fn kv_gqa_per_token_and_clamp() {
    let m = model("qwen3-32b");
    assert_eq!(m.KV.PerTokenBytes(), 131_072);
    assert_eq!(m.KV.BytesAt(32_768), 4_294_967_296);
    // beyond the 131072 cap the context is clamped
    assert_eq!(KVCacheBytes(&m, 200_000), (17_179_869_184, 131_072, true));
    assert_eq!(KVCacheBytes(&m, 1_000), (131_072_000, 1_000, true));
    let mut none = empty_model();
    none.Name = "x".to_string();
    assert_eq!(KVCacheBytes(&none, 5), (0, 5, false));
}

#[test]
fn kv_marginal_bytes_law() {
    // each kind grows by PerTokenBytes per token (swa beyond the window)
    for name in ["qwen3-32b", "qwen3.8-27b", "gpt-oss-20b", "deepseek-r1", "deepseek-v4-flash"] {
        let m = model(name);
        let p = m.KV.PerTokenBytes();
        assert_eq!(m.KV.BytesAt(4_001) - m.KV.BytesAt(4_000), p, "{}", name);
        assert!(m.KV.BytesAt(100) <= m.KV.BytesAt(200), "{}", name);
    }
}

#[test]
fn kv_swa_window_layers() {
    let m = model("gpt-oss-20b");
    assert_eq!(m.KV.PerTokenBytes(), 12_288);
    assert_eq!(m.KV.BytesAt(1_000), 13_860_864);
    assert_eq!(m.KV.BytesAt(100), 12 * 1024 * 100 + 12 * 1024 * 100);
}

#[test]
fn kv_kda_state_is_constant() {
    let m = model("qwen3.8-27b");
    assert_eq!(m.KV.PerTokenBytes(), 32_768);
    assert_eq!(m.KV.BytesAt(0), 48 * 1_572_864);
    assert_eq!(m.KV.BytesAt(262_144), 8_665_432_064);
}

#[test]
fn families_sorted_and_register_stable() {
    let mut cat = builtin();
    let ranks: Vec<i64> = cat.Families().iter().map(|f| f.Rank).collect();
    assert_eq!(ranks, vec![1, 2, 3, 4, 5, 6, 7, 8, 9, 10]);
    let mut f = empty_family();
    f.Rank = 3;
    f.Name = "extra".to_string();
    let mut m = empty_model();
    m.Name = "extra-1b".to_string();
    f.Models.push(m);
    cat.Register(f);
    let names: Vec<String> = cat.Families().iter().map(|f| f.Name.clone()).collect();
    assert_eq!(names[2], "llama");
    assert_eq!(names[3], "extra");
    assert_eq!(names[4], "gemma");
    let (found, fm) = cat.Find("extra-1b").expect("registered model is found");
    assert_eq!(found.Name, "extra");
    assert_eq!(fm.Name, "extra-1b");
    assert!(cat.Find("no-such-model").is_none());
}

#[test]
fn register_out_of_order_sorts_by_rank() {
    let mut cat = Catalog::new();
    for (rank, name) in [(5, "e"), (1, "a"), (3, "c"), (1, "b")] {
        let mut f: Family = empty_family();
        f.Rank = rank;
        f.Name = name.to_string();
        cat.Register(f);
    }
    let names: Vec<String> = cat.Families().iter().map(|f| f.Name.clone()).collect();
    assert_eq!(names, vec!["a", "b", "c", "e"]);
}

#[test]
fn checked_kv_matches_exact_figures() {
    let m = model("qwen3-32b");
    assert_eq!(m.KV.perTokenChecked(), Some(131072));
    assert_eq!(m.KV.bytesAtChecked(32768), Some(m.KV.BytesAt(32768)));
    assert_eq!(m.KV.bytesAtChecked(32768), Some(4_294_967_296));
    assert_eq!(kvCacheBytesChecked(&m, 32768), Some(KVCacheBytes(&m, 32768)));
    // a context so long the byte count leaves the int range
    assert_eq!(m.KV.bytesAtChecked(i64::MAX / 1000), None);
    let mut huge = m.clone();
    huge.KV.MaxContext = 0;
    assert_eq!(kvCacheBytesChecked(&huge, i64::MAX), None);
    // a division by zero in the sliding-window layout
    let mut swa = m.clone();
    swa.KV.Kind = "swa".to_string();
    swa.KV.FullEvery = 0;
    assert_eq!(swa.KV.perTokenChecked(), None);
    assert_eq!(swa.KV.bytesAtChecked(1024), None);
    // no architecture data: zero bytes, unclamped context, unknown
    let mut none = m.clone();
    none.KV.Kind = String::new();
    assert_eq!(kvCacheBytesChecked(&none, 99), Some((0, 99, false)));
}

#[test]
fn readiness_of_catalog_figures() {
    let cat = builtin();
    for f in cat.Families().iter() {
        for m in f.Models.iter() {
            assert!(kvLineReady(m), "{}", m.Name);
            assert!(showReady(m), "{}", m.Name);
        }
    }
    let m = model("qwen3-32b");
    assert!(vramReady(&m, 32768, 1));
    assert!(!vramReady(&m, 32768, i64::MAX));
    let mut far = m.clone();
    far.NativeContext = 1i64 << 60;
    far.KV.MaxContext = 0;
    assert!(!kvLineReady(&far));
    assert!(!showReady(&far));
    assert!(round2sigReady(137));
    assert!(round2sigReady(i64::MAX / 2));
    assert!(!round2sigReady(i64::MAX));
}

#[test]
fn kv_bytes_grow_with_context_across_catalog() {
    let cat = builtin();
    for f in cat.Families().iter() {
        for m in f.Models.iter() {
            if m.KV.Kind.is_empty() {
                continue;
            }
            let mut last = 0i64;
            for ctx in [0i64, 1, 1024, 4096, 32768, 131072] {
                let b = m.KV.bytesAtChecked(ctx).expect("in range");
                assert!(b >= last, "{} at {}", m.Name, ctx);
                last = b;
            }
        }
    }
}
