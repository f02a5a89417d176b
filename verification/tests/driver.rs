use kvlm::driver::{
    chooseDriver, deployInput, dockerCommand, esc, gpuTypeID, kubectlArgs, modelOrDash, proxyURL, Credentials,
    Mask, Names, Options,
};

fn strs(v: &[&str]) -> Vec<String> {
    v.iter().map(|s| s.to_string()).collect()
}

fn creds(k: &str, c: &str, n: &str) -> Credentials {
    Credentials { APIKey: String::new(), Kubeconfig: k.into(), Context: c.into(), Namespace: n.into() }
}

fn options() -> Options {
    Options {
        Model: "qwen3-32b".into(),
        Runtime: "vllm".into(),
        Image: "vllm/vllm-openai:v0.26.0".into(),
        GPUType: "H100".into(),
        GPUCount: 2,
        CudaVersions: strs(&["12.8", "12.9"]),
        PodID: String::new(),
        ServeArgv: Vec::new(),
        VolumeID: String::new(),
        Variant: "bf16".into(),
        Mode: "profile".into(),
        VllmVersion: String::new(),
    }
}

#[test]
fn kubectl_global_flags() {
    assert_eq!(kubectlArgs(&creds("", "", "")), Vec::<String>::new());
    assert_eq!(kubectlArgs(&creds("/k", "", "ml")), strs(&["--kubeconfig", "/k", "-n", "ml"]));
    assert_eq!(kubectlArgs(&creds("/k", "prod", "ml")), strs(&["--kubeconfig", "/k", "--context", "prod", "-n", "ml"]));
}

#[test]
fn mask_keeps_last_four() {
    assert_eq!(Mask(&b"rpa_SECRETKEY1234".to_vec()), b"****1234".to_vec());
    assert_eq!(Mask(&b"abcd".to_vec()), b"****".to_vec());
    assert_eq!(Mask(&Vec::new()), b"****".to_vec());
}

#[test]
fn small_driver_helpers() {
    let mut o = options();
    assert_eq!(modelOrDash(&o), "qwen3-32b");
    o.Model = String::new();
    assert_eq!(modelOrDash(&o), "-");
    assert_eq!(esc("a\"b\\c"), "a\\\"b\\\\c");
    assert_eq!(gpuTypeID("H100"), "NVIDIA H100 80GB HBM3");
    assert_eq!(gpuTypeID("RTX 4090"), "NVIDIA GeForce RTX 4090");
    assert_eq!(gpuTypeID("MI300X"), "MI300X");
    assert_eq!(proxyURL("abc123"), "https://abc123-8000.proxy.runpod.net");
    assert_eq!(chooseDriver("", "vastai", "runpod", "k8s"), "vastai");
    assert_eq!(chooseDriver("", "", "", "k8s"), "k8s");
    assert_eq!(chooseDriver("runpod", "vastai", "", ""), "runpod");
    assert_eq!(Names(&strs(&["vastai", "runpod", "k8s"])), "k8s, runpod, vastai");
}

#[test]
fn docker_command_quotes() {
    let argv = strs(&["vllm", "serve", "Qwen/Qwen3-32B", "--x", "a b", "--hf-overrides", "{\"k\":1}", "--flag"]);
    assert_eq!(dockerCommand(&argv), "Qwen/Qwen3-32B --x 'a b' --hf-overrides '{\"k\":1}' --flag");
    assert_eq!(dockerCommand(&strs(&["m", "vllm", "serve"])), "m serve");
}

#[test]
fn deploy_request_profile_and_production() {
    let o = options();
    let body = deployInput(&o, "ssh-ed25519 AAAA");
    assert!(body.starts_with("{\"cloudType\": \"SECURE\", \"gpuCount\": 2, \"gpuTypeId\": \"NVIDIA H100 80GB HBM3\", \"name\": \"kvlm-qwen3-32b\""));
    assert!(body.contains("\"dockerArgs\": \"\", \"ports\": \"22/tcp,8000/http\", \"volumeInGb\": 60"));
    assert!(body.contains("\"allowedCudaVersions\": [\"12.8\", \"12.9\"]"));
    assert!(body.ends_with("\"value\": \"ssh-ed25519 AAAA\"}, {\"key\": \"HF_HOME\", \"value\": \"/workspace/hf\"}]}"));
    let mut p = options();
    p.ServeArgv = strs(&["vllm", "serve", "Qwen/Qwen3-32B", "--tp", "2"]);
    p.VolumeID = "vol1".into();
    let body = deployInput(&p, "k");
    assert!(body.contains("\"dockerArgs\": \"Qwen/Qwen3-32B --tp 2\", \"ports\": \"8000/http\", \"networkVolumeId\": \"vol1\""));
}
