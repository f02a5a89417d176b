use kvlm::deploy::{cudaVersions, pickVariant, podImage, sizeGPUs, variantGPURef};
use kvlm::model::families::builtin;

#[test]
fn variant_with_fewest_gpus() {
    let cat = builtin();
    let (_, m) = cat.Find("qwen3-32b").unwrap();
    let (i, others) = pickVariant(m, "").expect("a recipe exists");
    assert_eq!(m.Variants[i].Name, "fp8");
    assert_eq!(others, vec!["bf16 2xH100", "awq-q4 1xL40S", "nvfp4 1xB200"]);
    let (i, others) = pickVariant(m, "bf16").expect("bf16 has a recipe");
    assert_eq!(m.Variants[i].Name, "bf16");
    assert!(others.is_empty());
    assert!(pickVariant(m, "int2").is_none());
    assert_eq!(variantGPURef(&m.Variants[0]), "2xH100");
}

#[test]
fn gpu_sizing() {
    assert_eq!(sizeGPUs(Some("2xH100"), "", 1, false, false), ("H100".to_string(), 2));
    assert_eq!(sizeGPUs(Some("2xH100"), "A100", 4, true, true), ("A100".to_string(), 4));
    assert_eq!(sizeGPUs(Some("4xH200 / 8xH100"), "", 0, false, true), ("H200 / 8xH100".to_string(), 1));
    assert_eq!(sizeGPUs(None, "L4", 0, false, false), ("L4".to_string(), 1));
    assert_eq!(sizeGPUs(Some("multi-node"), "T4", 3, false, false), ("T4".to_string(), 3));
}

#[test]
fn images_and_cuda() {
    assert_eq!(podImage("my/img", true, Some("v"), "rt"), "my/img");
    assert_eq!(podImage("", true, Some("v"), "rt"), "v");
    assert_eq!(podImage("", true, None, "rt"), "rt");
    assert_eq!(podImage("", false, Some("v"), "rt"), "runpod/pytorch:2.8.0-py3.11-cuda12.8.1-cudnn-devel-ubuntu22.04");
    assert_eq!(cudaVersions(" 12.8, ,12.9,"), vec!["12.8", "12.9"]);
    assert!(cudaVersions("").is_empty());
}
