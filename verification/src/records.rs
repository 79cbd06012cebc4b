//! Plain data records exchanged with the host application: detected
//! developer tools, agent configuration status, and usage accounting. They
//! carry no behaviour of their own; the host fills and reads them.

use vstd::prelude::*;

verus! {

/// A locally detected developer tool.
#[derive(Clone, Debug)]
pub struct DetectedTool {
    pub id: String,
    pub name: String,
    pub installed: bool,
    pub config_path: Option<String>,
    pub can_auto_configure: bool,
}

/// Configuration status of one command-line agent.
#[derive(Clone, Debug)]
pub struct AgentStatus {
    pub id: String,
    pub name: String,
    pub description: String,
    pub installed: bool,
    pub configured: bool,
    pub config_type: String,
    pub config_path: Option<String>,
    pub logo: String,
    pub docs_url: String,
}

/// Outcome of probing an agent through the proxy.
#[derive(Clone, Debug)]
pub struct AgentTestResult {
    pub success: bool,
    pub message: String,
    pub latency_ms: Option<u64>,
}

/// Model routing settings of the coding agent.
#[derive(Clone, Debug)]
pub struct ClaudeCodeSettings {
    pub haiku_model: Option<String>,
    pub haiku_fallback_models: Vec<String>,
    pub opus_model: Option<String>,
    pub opus_fallback_models: Vec<String>,
    pub sonnet_model: Option<String>,
    pub sonnet_fallback_models: Vec<String>,
    pub base_url: Option<String>,
    pub auth_token: Option<String>,
}

/// One proxied request.
#[derive(Clone, Debug)]
pub struct RequestLog {
    pub id: String,
    pub timestamp: u64,
    pub provider: String,
    pub model: String,
    pub method: String,
    pub path: String,
    pub status: u16,
    pub duration_ms: u64,
    pub tokens_in: Option<u32>,
    pub tokens_out: Option<u32>,
    pub tokens_cached: Option<u32>,
}

/// One labelled point of a time series.
#[derive(Clone, Debug)]
pub struct TimeSeriesPoint {
    pub label: String,
    pub value: u64,
}

/// Usage accumulated for one model.
#[derive(Clone, Debug)]
pub struct ModelUsage {
    pub model: String,
    pub requests: u64,
    pub tokens: u64,
    pub input_tokens: u64,
    pub output_tokens: u64,
    pub cached_tokens: u64,
}

/// Usage accumulated for one provider.
#[derive(Clone, Debug)]
pub struct ProviderUsage {
    pub provider: String,
    pub requests: u64,
    pub tokens: u64,
}

/// Per-model counters kept inside an aggregate.
#[derive(Clone, Debug, Default)]
pub struct ModelStats {
    pub requests: u64,
    pub success_count: u64,
    pub tokens: u64,
    pub input_tokens: u64,
    pub output_tokens: u64,
    pub cached_tokens: u64,
}

/// Overall usage statistics handed to the host.
#[derive(Clone, Debug, Default)]
pub struct UsageStats {
    pub total_requests: u64,
    pub success_count: u64,
    pub failure_count: u64,
    pub total_tokens: u64,
    pub input_tokens: u64,
    pub output_tokens: u64,
    pub cached_tokens: u64,
    pub requests_today: u64,
    pub tokens_today: u64,
    pub models: Vec<ModelUsage>,
    pub providers: Vec<ProviderUsage>,
    pub requests_by_day: Vec<TimeSeriesPoint>,
    pub tokens_by_day: Vec<TimeSeriesPoint>,
    pub requests_by_hour: Vec<TimeSeriesPoint>,
    pub tokens_by_hour: Vec<TimeSeriesPoint>,
}

} // verus!
