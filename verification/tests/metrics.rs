use kvlm::metrics::{metricField, metricsURL, parseLine, KnownMetrics, MetricField, Parse};

#[test]
fn parse_exposition_text() {
    let text = "# HELP vllm:num_requests_running running\n# TYPE vllm:num_requests_running gauge\nvllm:num_requests_running{model_name=\"q\"} 3.0\n\n  vllm:request_success_total{finished_reason=\"stop\"} 10 1712345678\nlonely\n";
    let ms = Parse(text);
    assert_eq!(ms.len(), 2);
    assert_eq!(ms[0].Name, "vllm:num_requests_running");
    assert_eq!(ms[0].Value, "3.0");
    assert_eq!(ms[1].Name, "vllm:request_success_total");
    assert_eq!(ms[1].Value, "10");
}

#[test]
fn parse_line_strips_labels() {
    assert_eq!(parseLine("a{b=\"c\"} 1.5"), ("a".to_string(), "1.5".to_string()));
    assert_eq!(parseLine("plain 2"), ("plain".to_string(), "2".to_string()));
    assert_eq!(parseLine("single"), (String::new(), String::new()));
}

#[test]
fn metric_fields_and_renames() {
    assert!(metricField("vllm:kv_cache_usage_perc") == Some((MetricField::GPUCacheUsage, false)));
    assert!(metricField("vllm:gpu_cache_usage_perc") == Some((MetricField::GPUCacheUsage, false)));
    assert!(metricField("vllm:request_time_per_output_token_seconds_sum") == Some((MetricField::TPOTSum, false)));
    assert!(metricField("vllm:time_per_output_token_seconds_sum") == Some((MetricField::TPOTSum, false)));
    assert!(metricField("vllm:num_preemptions_total") == Some((MetricField::Preemptions, true)));
    assert!(metricField("vllm:request_success_total") == Some((MetricField::RequestSuccess, true)));
    assert!(metricField("vllm:generation_tokens_total") == Some((MetricField::GenerationTokens, false)));
    assert!(metricField("vllm:unknown").is_none());
}

#[test]
fn metrics_url_scheme() {
    assert_eq!(metricsURL("localhost:8000"), "http://localhost:8000/metrics");
    assert_eq!(metricsURL("https://h:1"), "https://h:1/metrics");
    assert_eq!(metricsURL("http://h"), "http://h/metrics");
}

#[test]
fn known_metrics_list() {
    let k = KnownMetrics();
    assert_eq!(k.len(), 22);
    assert_eq!(k[0], "vllm:time_to_first_token_seconds (TTFT)");
    assert!(k.contains(&"vllm:time_per_output_token_seconds (TPOT)".to_string()));
    assert!(k.contains(&"vllm:gpu_cache_usage_perc".to_string()));
    assert_eq!(k[21], "vllm:spec_decode_efficiency");
    // every metric the snapshot categorizes is listed by its family name
    let categorized = [
        "vllm:time_to_first_token_seconds_sum", "vllm:time_to_first_token_seconds_count",
        "vllm:request_time_per_output_token_seconds_sum", "vllm:request_time_per_output_token_seconds_count",
        "vllm:time_per_output_token_seconds_sum", "vllm:time_per_output_token_seconds_count",
        "vllm:e2e_request_latency_seconds_sum", "vllm:e2e_request_latency_seconds_count",
        "vllm:request_prefill_time_seconds_sum", "vllm:request_prefill_time_seconds_count",
        "vllm:request_decode_time_seconds_sum", "vllm:request_decode_time_seconds_count",
        "vllm:request_queue_time_seconds_sum", "vllm:request_queue_time_seconds_count",
        "vllm:num_preemptions_total", "vllm:request_success_total", "vllm:generation_tokens_total",
        "vllm:prompt_tokens_total", "vllm:num_requests_running", "vllm:num_requests_waiting",
        "vllm:num_requests_swapped", "vllm:kv_cache_usage_perc", "vllm:gpu_cache_usage_perc",
        "vllm:cpu_cache_usage_perc", "vllm:prefix_cache_queries_total", "vllm:prefix_cache_hits_total",
        "vllm:spec_decode_acceptance_rate", "vllm:spec_decode_draft_acceptance_rate",
        "vllm:spec_decode_efficiency",
    ];
    for name in categorized {
        assert!(metricField(name).is_some(), "{}", name);
        let family = |e: &String| e.split(' ').next().unwrap().to_string();
        assert!(k.iter().any(|e| name.starts_with(&family(e))), "{} is not listed", name);
    }
}
