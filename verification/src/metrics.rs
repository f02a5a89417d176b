//! vLLM's Prometheus /metrics exposition: the sample lines it holds and
//! which snapshot figure each metric name feeds.
use vstd::prelude::*;
use crate::text::{
    fields, fields_exec, has_prefix, has_prefix_exec, index_char, index_char_exec, owned, push_str,
    split_char, split_char_exec, str_eq, substring, trim_space, trim_space_exec, lemma_index_char,
};

verus! {

/// One sample line: the metric name without labels, and the value as
/// written.
pub struct Metric {
    pub Name: String,
    pub Value: String,
}

/// The figures of a snapshot a metric can feed.
#[derive(PartialEq, Eq, Structural, Clone, Copy)]
pub enum MetricField {
    TTFTSum,
    TTFTCount,
    TPOTSum,
    TPOTCount,
    E2ESum,
    E2ECount,
    PrefillSum,
    PrefillCount,
    DecodeSum,
    DecodeCount,
    QueueSum,
    QueueCount,
    Preemptions,
    RequestSuccess,
    GenerationTokens,
    PromptTokens,
    Running,
    Waiting,
    Swapped,
    GPUCacheUsage,
    CPUCacheUsage,
    PrefixCacheQueries,
    PrefixCacheHits,
    SpecAcceptance,
    SpecDraftAcceptance,
    SpecEfficiency,
}

/// The figure a metric name feeds, and whether its series are summed
/// (one series per engine or per finish reason) rather than assigned.
/// Where vLLM 0.26 renamed a metric, both names feed the same figure.
pub open spec fn metric_field(n: Seq<char>) -> Option<(MetricField, bool)> {
    if n == "vllm:time_to_first_token_seconds_sum"@ {
        Some((MetricField::TTFTSum, false))
    } else if n == "vllm:time_to_first_token_seconds_count"@ {
        Some((MetricField::TTFTCount, false))
    } else if n == "vllm:request_time_per_output_token_seconds_sum"@ {
        Some((MetricField::TPOTSum, false))
    } else if n == "vllm:request_time_per_output_token_seconds_count"@ {
        Some((MetricField::TPOTCount, false))
    } else if n == "vllm:time_per_output_token_seconds_sum"@ {
        Some((MetricField::TPOTSum, false))
    } else if n == "vllm:time_per_output_token_seconds_count"@ {
        Some((MetricField::TPOTCount, false))
    } else if n == "vllm:e2e_request_latency_seconds_sum"@ {
        Some((MetricField::E2ESum, false))
    } else if n == "vllm:e2e_request_latency_seconds_count"@ {
        Some((MetricField::E2ECount, false))
    } else if n == "vllm:request_prefill_time_seconds_sum"@ {
        Some((MetricField::PrefillSum, false))
    } else if n == "vllm:request_prefill_time_seconds_count"@ {
        Some((MetricField::PrefillCount, false))
    } else if n == "vllm:request_decode_time_seconds_sum"@ {
        Some((MetricField::DecodeSum, false))
    } else if n == "vllm:request_decode_time_seconds_count"@ {
        Some((MetricField::DecodeCount, false))
    } else if n == "vllm:request_queue_time_seconds_sum"@ {
        Some((MetricField::QueueSum, false))
    } else if n == "vllm:request_queue_time_seconds_count"@ {
        Some((MetricField::QueueCount, false))
    } else if n == "vllm:num_preemptions_total"@ {
        Some((MetricField::Preemptions, true))
    } else if n == "vllm:request_success_total"@ {
        Some((MetricField::RequestSuccess, true))
    } else if n == "vllm:generation_tokens_total"@ {
        Some((MetricField::GenerationTokens, false))
    } else if n == "vllm:prompt_tokens_total"@ {
        Some((MetricField::PromptTokens, false))
    } else if n == "vllm:num_requests_running"@ {
        Some((MetricField::Running, false))
    } else if n == "vllm:num_requests_waiting"@ {
        Some((MetricField::Waiting, false))
    } else if n == "vllm:num_requests_swapped"@ {
        Some((MetricField::Swapped, false))
    } else if n == "vllm:kv_cache_usage_perc"@ {
        Some((MetricField::GPUCacheUsage, false))
    } else if n == "vllm:gpu_cache_usage_perc"@ {
        Some((MetricField::GPUCacheUsage, false))
    } else if n == "vllm:cpu_cache_usage_perc"@ {
        Some((MetricField::CPUCacheUsage, false))
    } else if n == "vllm:prefix_cache_queries_total"@ {
        Some((MetricField::PrefixCacheQueries, false))
    } else if n == "vllm:prefix_cache_hits_total"@ {
        Some((MetricField::PrefixCacheHits, false))
    } else if n == "vllm:spec_decode_acceptance_rate"@ {
        Some((MetricField::SpecAcceptance, false))
    } else if n == "vllm:spec_decode_draft_acceptance_rate"@ {
        Some((MetricField::SpecDraftAcceptance, false))
    } else if n == "vllm:spec_decode_efficiency"@ {
        Some((MetricField::SpecEfficiency, false))
    } else {
        None
    }
}

/// Which snapshot figure a metric feeds, if any; `true` when its series
/// add up.
pub fn metricField(n: &str) -> (r: Option<(MetricField, bool)>)
    ensures
        r == metric_field(n@),
{
    if str_eq(n, "vllm:time_to_first_token_seconds_sum") {
        Some((MetricField::TTFTSum, false))
    } else if str_eq(n, "vllm:time_to_first_token_seconds_count") {
        Some((MetricField::TTFTCount, false))
    } else if str_eq(n, "vllm:request_time_per_output_token_seconds_sum") {
        Some((MetricField::TPOTSum, false))
    } else if str_eq(n, "vllm:request_time_per_output_token_seconds_count") {
        Some((MetricField::TPOTCount, false))
    } else if str_eq(n, "vllm:time_per_output_token_seconds_sum") {
        Some((MetricField::TPOTSum, false))
    } else if str_eq(n, "vllm:time_per_output_token_seconds_count") {
        Some((MetricField::TPOTCount, false))
    } else if str_eq(n, "vllm:e2e_request_latency_seconds_sum") {
        Some((MetricField::E2ESum, false))
    } else if str_eq(n, "vllm:e2e_request_latency_seconds_count") {
        Some((MetricField::E2ECount, false))
    } else if str_eq(n, "vllm:request_prefill_time_seconds_sum") {
        Some((MetricField::PrefillSum, false))
    } else if str_eq(n, "vllm:request_prefill_time_seconds_count") {
        Some((MetricField::PrefillCount, false))
    } else if str_eq(n, "vllm:request_decode_time_seconds_sum") {
        Some((MetricField::DecodeSum, false))
    } else if str_eq(n, "vllm:request_decode_time_seconds_count") {
        Some((MetricField::DecodeCount, false))
    } else if str_eq(n, "vllm:request_queue_time_seconds_sum") {
        Some((MetricField::QueueSum, false))
    } else if str_eq(n, "vllm:request_queue_time_seconds_count") {
        Some((MetricField::QueueCount, false))
    } else if str_eq(n, "vllm:num_preemptions_total") {
        Some((MetricField::Preemptions, true))
    } else if str_eq(n, "vllm:request_success_total") {
        Some((MetricField::RequestSuccess, true))
    } else if str_eq(n, "vllm:generation_tokens_total") {
        Some((MetricField::GenerationTokens, false))
    } else if str_eq(n, "vllm:prompt_tokens_total") {
        Some((MetricField::PromptTokens, false))
    } else if str_eq(n, "vllm:num_requests_running") {
        Some((MetricField::Running, false))
    } else if str_eq(n, "vllm:num_requests_waiting") {
        Some((MetricField::Waiting, false))
    } else if str_eq(n, "vllm:num_requests_swapped") {
        Some((MetricField::Swapped, false))
    } else if str_eq(n, "vllm:kv_cache_usage_perc") {
        Some((MetricField::GPUCacheUsage, false))
    } else if str_eq(n, "vllm:gpu_cache_usage_perc") {
        Some((MetricField::GPUCacheUsage, false))
    } else if str_eq(n, "vllm:cpu_cache_usage_perc") {
        Some((MetricField::CPUCacheUsage, false))
    } else if str_eq(n, "vllm:prefix_cache_queries_total") {
        Some((MetricField::PrefixCacheQueries, false))
    } else if str_eq(n, "vllm:prefix_cache_hits_total") {
        Some((MetricField::PrefixCacheHits, false))
    } else if str_eq(n, "vllm:spec_decode_acceptance_rate") {
        Some((MetricField::SpecAcceptance, false))
    } else if str_eq(n, "vllm:spec_decode_draft_acceptance_rate") {
        Some((MetricField::SpecDraftAcceptance, false))
    } else if str_eq(n, "vllm:spec_decode_efficiency") {
        Some((MetricField::SpecEfficiency, false))
    } else {
        None
    }
}

/// A metric name without its `{labels}`.
pub open spec fn bare_name(full: Seq<char>) -> Seq<char> {
    let i = index_char(full, '{');
    if i >= 0 { full.take(i) } else { full }
}

/// Name and value text of a sample line `<name>[{labels}] <value> ...`;
/// ("", "") when the line has fewer than two fields.
pub open spec fn parse_line(line: Seq<char>) -> (Seq<char>, Seq<char>) {
    let parts = fields(line);
    if parts.len() < 2 {
        (seq![], seq![])
    } else {
        (bare_name(parts[0]), parts[1])
    }
}

/// Extracts the metric name (labels stripped) and the value text of a
/// sample line.
pub fn parseLine(line: &str) -> (r: (String, String))
    ensures
        (r.0@, r.1@) == parse_line(line@),
{
    let parts = fields_exec(line);
    if parts.len() < 2 {
        return (String::new(), String::new());
    }
    assert(parts.deep_view()[0] == parts[0]@);
    let full = &parts[0];
    let name = match index_char_exec(full.as_str(), '{') {
        Some(i) => {
            proof {
                lemma_index_char(full@, '{');
            }
            substring(full.as_str(), 0, i)
        },
        None => crate::text::copy(full),
    };
    (name, crate::text::copy(&parts[1]))
}

/// The samples of exposition text, in order: comment and blank lines
/// and lines without a name and value are skipped.
pub open spec fn samples_of(lines: Seq<Seq<char>>) -> Seq<(Seq<char>, Seq<char>)>
    decreases lines.len(),
{
    if lines.len() == 0 {
        seq![]
    } else {
        let t = trim_space(lines.last());
        let nv = parse_line(t);
        samples_of(lines.drop_last()) + if t.len() == 0 || has_prefix(t, "#"@) || nv.0.len() == 0 {
            seq![]
        } else {
            seq![nv]
        }
    }
}

pub open spec fn metric_view(m: Metric) -> (Seq<char>, Seq<char>) {
    (m.Name@, m.Value@)
}

/// Parses Prometheus exposition text into its samples.
pub fn Parse(text: &str) -> (r: Vec<Metric>)
    ensures
        r@.map_values(|m: Metric| metric_view(m)) == samples_of(split_char(text@, '\n')),
{
    let lines = split_char_exec(text, '\n');
    let ghost ls = lines.deep_view();
    let mut out: Vec<Metric> = Vec::new();
    let mut i: usize = 0;
    assert(ls.take(0) =~= Seq::<Seq<char>>::empty());
    while i < lines.len()
        invariant
            i <= lines.len(),
            ls == lines.deep_view(),
            ls == split_char(text@, '\n'),
            out@.map_values(|m: Metric| metric_view(m)) == samples_of(ls.take(i as int)),
        decreases lines.len() - i,
    {
        proof {
            let t = ls.take(i + 1);
            assert(t.drop_last() =~= ls.take(i as int));
            assert(t.last() == ls[i as int]);
        }
        let ghost before = out@.map_values(|m: Metric| metric_view(m));
        let trimmed = trim_space_exec(lines[i].as_str());
        if !trimmed.as_str().is_empty() && !has_prefix_exec(trimmed.as_str(), "#") {
            let (name, value) = parseLine(trimmed.as_str());
            if !name.as_str().is_empty() {
                let m = Metric { Name: name, Value: value };
                out.push(m);
                assert(out@.map_values(|m: Metric| metric_view(m)) =~= before.push(
                    parse_line(trim_space(ls[i as int])),
                ));
            }
        }
        i += 1;
    }
    assert(ls.take(lines.len() as int) =~= ls);
    out
}

/// The endpoint a server address is scraped at: plain http unless a
/// scheme is given, path /metrics.
pub open spec fn metrics_url(addr: Seq<char>) -> Seq<char> {
    if !has_prefix(addr, "http://"@) && !has_prefix(addr, "https://"@) {
        "http://"@ + addr + "/metrics"@
    } else {
        addr + "/metrics"@
    }
}

pub fn metricsURL(addr: &str) -> (r: String)
    ensures
        r@ == metrics_url(addr@),
{
    let mut url = String::new();
    if !has_prefix_exec(addr, "http://") && !has_prefix_exec(addr, "https://") {
        push_str(&mut url, "http://");
    }
    push_str(&mut url, addr);
    push_str(&mut url, "/metrics");
    url
}

/// Every vLLM metric the snapshot categorizes (by family name, with the
/// renamed pre-0.26 names), for documentation.
pub open spec fn known_metrics() -> Seq<Seq<char>> {
    seq![
        "vllm:time_to_first_token_seconds (TTFT)"@,
        "vllm:request_time_per_output_token_seconds (TPOT)"@,
        "vllm:time_per_output_token_seconds (TPOT)"@,
        "vllm:e2e_request_latency_seconds"@,
        "vllm:request_prefill_time_seconds"@,
        "vllm:request_decode_time_seconds"@,
        "vllm:request_queue_time_seconds"@,
        "vllm:request_success_total"@,
        "vllm:generation_tokens_total"@,
        "vllm:prompt_tokens_total"@,
        "vllm:num_preemptions_total"@,
        "vllm:num_requests_running"@,
        "vllm:num_requests_waiting"@,
        "vllm:num_requests_swapped"@,
        "vllm:kv_cache_usage_perc"@,
        "vllm:gpu_cache_usage_perc"@,
        "vllm:cpu_cache_usage_perc"@,
        "vllm:prefix_cache_queries_total"@,
        "vllm:prefix_cache_hits_total"@,
        "vllm:spec_decode_acceptance_rate"@,
        "vllm:spec_decode_draft_acceptance_rate"@,
        "vllm:spec_decode_efficiency"@,
    ]
}

pub fn KnownMetrics() -> (r: Vec<String>)
    ensures
        r.deep_view() == known_metrics(),
{
    let names = [
        "vllm:time_to_first_token_seconds (TTFT)",
        "vllm:request_time_per_output_token_seconds (TPOT)",
        "vllm:time_per_output_token_seconds (TPOT)",
        "vllm:e2e_request_latency_seconds",
        "vllm:request_prefill_time_seconds",
        "vllm:request_decode_time_seconds",
        "vllm:request_queue_time_seconds",
        "vllm:request_success_total",
        "vllm:generation_tokens_total",
        "vllm:prompt_tokens_total",
        "vllm:num_preemptions_total",
        "vllm:num_requests_running",
        "vllm:num_requests_waiting",
        "vllm:num_requests_swapped",
        "vllm:kv_cache_usage_perc",
        "vllm:gpu_cache_usage_perc",
        "vllm:cpu_cache_usage_perc",
        "vllm:prefix_cache_queries_total",
        "vllm:prefix_cache_hits_total",
        "vllm:spec_decode_acceptance_rate",
        "vllm:spec_decode_draft_acceptance_rate",
        "vllm:spec_decode_efficiency",
    ];
    let mut r: Vec<String> = Vec::new();
    let mut i: usize = 0;
    while i < 22
        invariant
            i <= 22,
            names@.len() == 22,
            forall|k: int| 0 <= k < 22 ==> #[trigger] names@[k]@ == known_metrics()[k],
            r.deep_view() == known_metrics().take(i as int),
        decreases 22 - i,
    {
        let ghost before = r.deep_view();
        r.push(owned(names[i]));
        i += 1;
        assert(r.deep_view() =~= before.push(known_metrics()[i - 1]));
        assert(known_metrics().take(i as int) =~= known_metrics().take(i - 1).push(known_metrics()[i - 1]));
    }
    assert(known_metrics().take(22) =~= known_metrics());
    r
}

} // verus!
