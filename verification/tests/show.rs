use kvlm::model::families::builtin;
use kvlm::model::gpu::{firstContained, LookupGPU, ParseGPURef, ParseGPUs};
use kvlm::model::serve::{DefaultServe, PickHardware, RecipeMaxLen, RecipeMaxSeqs};
use kvlm::model::show::{
    arch_desc, hardware_rows, show_header, show_matrix, show_resolved, variant_serve, vram_kv_lines,
    vram_select, List, VramError,
};

#[test]
fn gpu_lookup_and_parse() {
    let (g, ok) = LookupGPU("h100 80GB");
    assert!(ok);
    assert_eq!(g.Name, "H100");
    assert_eq!(g.VRAMGB, 80);
    assert_eq!(g.BWGBs, 3350);
    let (g, ok) = LookupGPU("rtx pro 6000");
    assert!(ok);
    assert_eq!(g.Class, "blackwell");
    let (g, ok) = LookupGPU("tpu");
    assert!(!ok);
    assert_eq!(g.Name, "");
    let (n, g, ok) = ParseGPUs("2xH100");
    assert_eq!((n, g.Name.as_str(), ok), (2, "H100", true));
    // L40S comes before L4 in the table
    let (n, g, ok) = ParseGPUs("1xL40S 48GB");
    assert_eq!((n, g.Name.as_str(), ok), (1, "L40S", true));
    let (n, _, ok) = ParseGPUs("0xH100");
    assert_eq!((n, ok), (0, false));
    let (n, _, ok) = ParseGPUs("H100");
    assert_eq!((n, ok), (0, false));
    assert_eq!(ParseGPURef(" 2xH100 "), (2, "H100".to_string(), true));
    assert_eq!(ParseGPURef("xH100"), (0, String::new(), false));
    assert_eq!(ParseGPURef("16-24xH200 multi-node"), (0, String::new(), false));
}

#[test]
fn serve_spec_forms() {
    let cat = builtin();
    let (_, m) = cat.Find("qwen3-32b").unwrap();
    let bf16 = &m.Variants[0];
    let (spec, ok) = DefaultServe(bf16);
    assert!(ok);
    let argv = spec.Argv();
    assert_eq!(&argv[..4], &["vllm", "serve", "Qwen/Qwen3-32B", "--served-model-name"]);
    assert_eq!(argv.last().unwrap(), "--enable-prefix-caching");
    assert_eq!(spec.FlagValue("--max-num-seqs"), ("16".to_string(), true));
    assert_eq!(spec.FlagValue("--enable-prefix-caching"), (String::new(), true));
    assert_eq!(spec.FlagValue("--nope"), (String::new(), false));
    let r = spec.Render();
    assert!(r.starts_with("vllm serve Qwen/Qwen3-32B \\\n  --served-model-name qwen3-32b"));
    assert!(r.ends_with(" \\\n  --enable-prefix-caching"));
    assert_eq!(RecipeMaxSeqs(bf16), (16, true));
    assert_eq!(RecipeMaxLen(bf16), (16384, true));
}

#[test]
fn pick_hardware_fallbacks() {
    let cat = builtin();
    let (_, m) = cat.Find("qwen3-32b").unwrap();
    let bf16 = &m.Variants[0];
    let (h, ok) = PickHardware(bf16, "blackwell");
    assert!(ok);
    assert_eq!(h.Target, "hopper/ada (CUDA 13)");
    let (h, ok) = PickHardware(bf16, "rocm");
    assert!(ok);
    assert_eq!(h.Key, "rocm");
    let (_, ok) = PickHardware(bf16, "tpu");
    assert!(!ok);
    let fp8 = &m.Variants[1];
    let (h, ok) = PickHardware(fp8, "blackwell");
    assert!(ok);
    assert_eq!(h.Target, "blackwell (B200)");
    let awq = &m.Variants[2];
    let (h, ok) = PickHardware(awq, "rocm");
    assert!(ok);
    assert_eq!(h.FloorRef, "#36505");
}

#[test]
fn show_header_lines() {
    let cat = builtin();
    let (f, m) = cat.Find("qwen3-32b").unwrap();
    let lines = show_header(f, m);
    assert_eq!(lines[0], "Model:    qwen3-32b");
    assert_eq!(lines[1], "Family:   qwen (rank #1)");
    assert_eq!(lines[2], "Size:     32B (dense)");
    assert_eq!(lines[3], "Context:  32K native, 128K max (YaRN)");
    assert_eq!(lines[4], "KV/seq:   4.3 GB at 32K (fp8 KV)");
    assert_eq!(lines[5], "License:  Apache 2.0");
    assert_eq!(lines[6], "Engines:  vLLM, SGLang, LMDeploy, TensorRT-LLM");
    assert_eq!(lines[7], "Image:    vllm/vllm-openai:v0.26.0");
    assert_eq!(lines.len(), 8);
}

#[test]
fn support_matrix_uses_resolver() {
    let cat = builtin();
    let (_, m) = cat.Find("qwen3-32b").unwrap();
    let rows = show_matrix(m);
    assert_eq!(rows[0], "TARGET\tbf16\tfp8\tawq-q4\tnvfp4");
    assert!(rows[1].starts_with("hopper/ada (CUDA 13)\tv0.8.5\tv0.18.0 (#35656)"));
    // the blackwell row: bf16 falls back to its cuda row
    let bw = rows.iter().find(|r| r.starts_with("blackwell (B200)")).expect("blackwell row");
    assert!(bw.starts_with("blackwell (B200)\tv0.8.5\tv0.19.0 (hard floor)"));
}

#[test]
fn variant_detail_and_resolution() {
    let cat = builtin();
    let (_, m) = cat.Find("qwen3-32b").unwrap();
    let lines = variant_serve(&m.Variants[0]);
    assert_eq!(lines[0], "");
    assert_eq!(lines[1], "Serve (bf16), image vllm/vllm-openai:v0.26.0:");
    assert_eq!(lines[2], "  vllm serve Qwen/Qwen3-32B \\");
    let hw = hardware_rows(&m.Variants[0]);
    assert_eq!(hw[0], "TARGET\tIMAGE\tFLOOR\tNOTE");
    assert_eq!(hw.len(), 5);
    let (out, ok) = show_resolved(m, "b200", "fp8");
    assert!(ok);
    assert_eq!(out[1], "Resolved for B200 (blackwell, 192 GB, 8000 GB/s):");
    assert_eq!(out[3], "fp8 on B200 (blackwell (B200)):");
    assert_eq!(out[4], "  Image:  vllm/vllm-openai:v0.26.0 (floor v0.19.0 (hard floor))");
    let (out, ok) = show_resolved(m, "nonesuch", "");
    assert!(!ok);
    assert!(out.is_empty());
}

#[test]
fn vram_selection_and_lines() {
    let cat = builtin();
    match vram_select(&cat, "nope", "") {
        Err(VramError::UnknownModel) => {}
        _ => panic!("unknown model expected"),
    }
    match vram_select(&cat, "qwen3-32b", "int3") {
        Err(VramError::UnknownVariant(names)) => assert_eq!(names, vec!["bf16", "fp8", "awq-q4", "nvfp4"]),
        _ => panic!("unknown variant expected"),
    }
    let (m, v) = match vram_select(&cat, "qwen3-32b", "fp8") {
        Ok(p) => p,
        Err(_) => panic!("fp8 exists"),
    };
    assert_eq!(v.Name, "fp8");
    let lines = vram_kv_lines(m, v, 200_000, 4);
    assert_eq!(lines[0], "Model:      qwen3-32b (fp8)");
    assert_eq!(lines[1], "Arch:       GQA 64L x 8KV x 128d, 131.1 KB/token (fp8 KV)");
    assert_eq!(lines[2], "Context:    200000 tokens requested, clamped to the 131072 cap (128K)");
    assert_eq!(lines[3], "KV/seq:     17.2 GB");
    assert_eq!(lines[4], "KV pool:    68.7 GB (4 seqs)");
    let (m2, _) = match vram_select(&cat, "qwen3.8-27b", "") {
        Ok(p) => p,
        Err(_) => panic!("qwen3.8-27b exists"),
    };
    assert_eq!(arch_desc(&m2.KV), "KDA hybrid 64L (1/4 full attn, 1 MB state/linear layer)");
}

#[test]
fn model_list_rows() {
    let cat = builtin();
    let rows = List(&cat);
    assert_eq!(rows[0], "MODEL\tFAMILY\tSIZE");
    assert_eq!(rows[1], "qwen3-32b\tqwen\t32B");
    let total: usize = cat.Families().iter().map(|f| f.Models.len()).sum();
    assert_eq!(rows.len(), total + 1);
}

#[test]
fn first_contained_name_wins() {
    let names: Vec<String> = ["L40S", "A100", "L4"].iter().map(|s| s.to_string()).collect();
    assert_eq!(firstContained("L40S 48GB", &names), Some(0));
    assert_eq!(firstContained("1XL4", &names), Some(2));
    assert_eq!(firstContained("H100", &names), None);
    assert_eq!(firstContained("anything", &Vec::new()), None);
}
