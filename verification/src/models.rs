//! Data model of inference requests and responses.
//!
//! Durations and timestamps are carried as milliseconds; the sampling
//! parameters that are conceptually fractional (temperature, top-p and the
//! penalties) are carried in thousandths, so that every field is an exact
//! integer.

use vstd::prelude::*;
use crate::perf::now_millis;

verus! {

/// Health of the serving backend.
#[derive(Debug, Clone, PartialEq, Eq, Structural)]
pub enum HealthStatus {
    /// Health has not been determined.
    Unknown,
    /// The backend answers and is fully operational.
    Healthy,
    /// The backend does not answer or fails.
    Unhealthy,
    /// The backend answers but with degraded service.
    Degraded,
    /// The backend is down for maintenance.
    Maintenance,
}

impl Default for HealthStatus {
    /// Health starts out unknown.
    fn default() -> (r: Self)
        ensures
            r == HealthStatus::Unknown,
    {
        HealthStatus::Unknown
    }
}

/// Options for inference requests. Fractional parameters are in
/// thousandths: a temperature of 700 stands for 0.7.
#[derive(Debug, Clone)]
pub struct InferenceOptions {
    /// Maximum number of tokens to generate.
    pub max_tokens: Option<u32>,
    /// Sampling temperature in thousandths (0 to 2000).
    pub temperature_milli: Option<u32>,
    /// Top-p nucleus sampling in thousandths (0 to 1000).
    pub top_p_milli: Option<u32>,
    /// Top-k sampling.
    pub top_k: Option<u32>,
    /// Frequency penalty in thousandths (-2000 to 2000).
    pub frequency_penalty_milli: Option<i32>,
    /// Presence penalty in thousandths (-2000 to 2000).
    pub presence_penalty_milli: Option<i32>,
    /// Stop sequences.
    pub stop_sequences: Option<Vec<String>>,
    /// Enable streaming.
    pub stream: Option<bool>,
    /// Random seed.
    pub seed: Option<u32>,
}

impl Default for InferenceOptions {
    /// Defaults: 500 tokens, temperature 0.7, top-p 1.0, no penalties, no
    /// streaming.
    fn default() -> (r: Self)
        ensures
            r.max_tokens == Some(500u32),
            r.temperature_milli == Some(700u32),
            r.top_p_milli == Some(1000u32),
            r.top_k is None,
            r.frequency_penalty_milli == Some(0i32),
            r.presence_penalty_milli == Some(0i32),
            r.stop_sequences is None,
            r.stream == Some(false),
            r.seed is None,
    {
        InferenceOptions {
            max_tokens: Some(500),
            temperature_milli: Some(700),
            top_p_milli: Some(1000),
            top_k: None,
            frequency_penalty_milli: Some(0),
            presence_penalty_milli: Some(0),
            stop_sequences: None,
            stream: Some(false),
            seed: None,
        }
    }
}

impl InferenceOptions {
    /// Create options with the defaults.
    pub fn new() -> (r: Self)
        ensures
            r.max_tokens == Some(500u32),
            r.temperature_milli == Some(700u32),
            r.top_p_milli == Some(1000u32),
            r.top_k is None,
            r.frequency_penalty_milli == Some(0i32),
            r.presence_penalty_milli == Some(0i32),
            r.stop_sequences is None,
            r.stream == Some(false),
            r.seed is None,
    {
        Self::default()
    }

    /// Set the maximum number of tokens.
    pub fn max_tokens(self, max_tokens: u32) -> (r: Self)
        ensures
            r == (InferenceOptions { max_tokens: Some(max_tokens), ..self }),
    {
        InferenceOptions { max_tokens: Some(max_tokens), ..self }
    }

    /// Set the temperature in thousandths, clamped to the 0 to 2000 range.
    pub fn temperature(self, temperature_milli: u32) -> (r: Self)
        ensures
            r == (InferenceOptions {
                temperature_milli: Some(
                    if temperature_milli > 2000 {
                        2000u32
                    } else {
                        temperature_milli
                    },
                ),
                ..self
            }),
    {
        let t = if temperature_milli > 2000 {
            2000
        } else {
            temperature_milli
        };
        InferenceOptions { temperature_milli: Some(t), ..self }
    }

    /// Set top-p in thousandths, clamped to the 0 to 1000 range.
    pub fn top_p(self, top_p_milli: u32) -> (r: Self)
        ensures
            r == (InferenceOptions {
                top_p_milli: Some(
                    if top_p_milli > 1000 {
                        1000u32
                    } else {
                        top_p_milli
                    },
                ),
                ..self
            }),
    {
        let t = if top_p_milli > 1000 {
            1000
        } else {
            top_p_milli
        };
        InferenceOptions { top_p_milli: Some(t), ..self }
    }

    /// Set top-k.
    pub fn top_k(self, top_k: u32) -> (r: Self)
        ensures
            r == (InferenceOptions { top_k: Some(top_k), ..self }),
    {
        InferenceOptions { top_k: Some(top_k), ..self }
    }

    /// Enable or disable streaming.
    pub fn stream(self, stream: bool) -> (r: Self)
        ensures
            r == (InferenceOptions { stream: Some(stream), ..self }),
    {
        InferenceOptions { stream: Some(stream), ..self }
    }

    /// Set the random seed.
    pub fn seed(self, seed: u32) -> (r: Self)
        ensures
            r == (InferenceOptions { seed: Some(seed), ..self }),
    {
        InferenceOptions { seed: Some(seed), ..self }
    }

    /// Add one stop sequence.
    pub fn stop_sequence(self, sequence: &str) -> (r: Self)
        ensures
            r.max_tokens == self.max_tokens,
            r.temperature_milli == self.temperature_milli,
            r.top_p_milli == self.top_p_milli,
            r.top_k == self.top_k,
            r.frequency_penalty_milli == self.frequency_penalty_milli,
            r.presence_penalty_milli == self.presence_penalty_milli,
            r.stream == self.stream,
            r.seed == self.seed,
            r.stop_sequences matches Some(v) && ({
                let prior = match self.stop_sequences {
                    Some(v0) => v0@,
                    None => Seq::empty(),
                };
                &&& v@.len() == prior.len() + 1
                &&& forall|i: int| 0 <= i < prior.len() ==> v@[i] == prior[i]
                &&& v@[prior.len() as int]@ == sequence@
            }),
    {
        let s = String::from_str(sequence);
        match self.stop_sequences {
            Some(mut v) => {
                v.push(s);
                InferenceOptions { stop_sequences: Some(v), ..self }
            },
            None => {
                let mut v: Vec<String> = Vec::new();
                v.push(s);
                InferenceOptions { stop_sequences: Some(v), ..self }
            },
        }
    }
}

/// Metrics reported for one inference.
#[derive(Debug, Clone, Copy, PartialEq, Eq, Structural)]
pub struct InferenceMetrics {
    /// End-to-end latency in milliseconds.
    pub latency_ms: Option<u64>,
    /// Number of tokens generated.
    pub tokens_generated: Option<u32>,
    /// Memory used in bytes.
    pub memory_used: Option<u64>,
    /// Processing time in milliseconds.
    pub processing_time: Option<u64>,
    /// Queue time in milliseconds.
    pub queue_time: Option<u64>,
}

/// Information about one model known to the backend.
#[derive(Debug, Clone)]
pub struct ModelInfo {
    /// Model identifier.
    pub id: String,
    /// Human-readable name.
    pub name: Option<String>,
    /// Model format (gguf, onnx, ...).
    pub format: Option<String>,
    /// Source path or URL.
    pub source: Option<String>,
    /// Whether the model is loaded.
    pub loaded: bool,
    /// Load time in milliseconds.
    pub load_time: Option<u64>,
    /// Memory usage in bytes.
    pub memory_usage: Option<u64>,
    /// Model version.
    pub version: Option<String>,
    /// Capability names.
    pub capabilities: Option<Vec<String>>,
}

/// One message of a chat exchange.
#[derive(Debug, Clone)]
pub struct ChatMessage {
    /// Message role: user, assistant or system.
    pub role: String,
    /// Message content.
    pub content: String,
    /// Creation time in milliseconds since the epoch.
    pub timestamp_ms: Option<u64>,
}

impl ChatMessage {
    /// Create a user message, timestamped now.
    pub fn user(content: &str) -> (r: Self)
        ensures
            r.role@ == "user"@,
            r.content@ == content@,
            r.timestamp_ms is Some,
    {
        ChatMessage {
            role: String::from_str("user"),
            content: String::from_str(content),
            timestamp_ms: Some(now_millis()),
        }
    }

    /// Create an assistant message, timestamped now.
    pub fn assistant(content: &str) -> (r: Self)
        ensures
            r.role@ == "assistant"@,
            r.content@ == content@,
            r.timestamp_ms is Some,
    {
        ChatMessage {
            role: String::from_str("assistant"),
            content: String::from_str(content),
            timestamp_ms: Some(now_millis()),
        }
    }

    /// Create a system message, timestamped now.
    pub fn system(content: &str) -> (r: Self)
        ensures
            r.role@ == "system"@,
            r.content@ == content@,
            r.timestamp_ms is Some,
    {
        ChatMessage {
            role: String::from_str("system"),
            content: String::from_str(content),
            timestamp_ms: Some(now_millis()),
        }
    }
}

/// The prompt text a list of chat messages flattens to: each message as
/// `role: content`, joined with line feeds.
pub open spec fn sp_chat_prompt(ms: Seq<ChatMessage>, i: nat) -> Seq<char>
    decreases ms.len() - i,
{
    if i >= ms.len() {
        Seq::empty()
    } else {
        let line = ms[i as int].role@ + ": "@ + ms[i as int].content@;
        if i + 1 < ms.len() {
            line + "\n"@ + sp_chat_prompt(ms, i + 1)
        } else {
            line
        }
    }
}

/// Flatten chat messages into a single prompt, one `role: content` line per
/// message.
pub fn chat_prompt(messages: &Vec<ChatMessage>) -> (r: String)
    ensures
        r@ == sp_chat_prompt(messages@, 0),
{
    let mut acc = String::new();
    let n = messages.len();
    let mut i: usize = 0;
    while i < n
        invariant
            n == messages@.len(),
            i <= n,
            i == 0 ==> acc@ == Seq::<char>::empty(),
            0 < i < n ==> sp_chat_prompt(messages@, 0) == acc@ + "\n"@ + sp_chat_prompt(
                messages@,
                i as nat,
            ),
            i == n && n > 0 ==> sp_chat_prompt(messages@, 0) == acc@,
            i == n && n == 0 ==> acc@ == Seq::<char>::empty(),
        decreases n - i,
    {
        let ghost pre = acc@;
        if i > 0 {
            acc.append("\n");
        }
        let ghost sep = acc@;
        let m = &messages[i];
        acc.append(m.role.as_str());
        acc.append(": ");
        acc.append(m.content.as_str());
        proof {
            let line = messages@[i as int].role@ + ": "@ + messages@[i as int].content@;
            assert(acc@ =~= sep + line);
            if i == 0 {
                assert(acc@ =~= line);
            } else {
                assert(acc@ =~= pre + "\n"@ + line);
            }
            if i + 1 < n {
                if i == 0 {
                    assert(sp_chat_prompt(messages@, 0) == line + "\n"@ + sp_chat_prompt(
                        messages@,
                        1,
                    ));
                    assert(line + "\n"@ + sp_chat_prompt(messages@, 1) =~= acc@ + "\n"@
                        + sp_chat_prompt(messages@, 1));
                } else {
                    assert(sp_chat_prompt(messages@, i as nat) == line + "\n"@ + sp_chat_prompt(
                        messages@,
                        i as nat + 1,
                    ));
                    assert(pre + "\n"@ + (line + "\n"@ + sp_chat_prompt(messages@, i as nat + 1))
                        =~= acc@ + "\n"@ + sp_chat_prompt(messages@, i as nat + 1));
                }
            } else {
                if i == 0 {
                    assert(sp_chat_prompt(messages@, 0) == line);
                } else {
                    assert(sp_chat_prompt(messages@, i as nat) == line);
                    assert(pre + "\n"@ + line =~= acc@);
                }
            }
        }
        i = i + 1;
    }
    acc
}

/// One inference request.
#[derive(Debug, Clone)]
pub struct InferenceRequest {
    /// Input prompt.
    pub prompt: String,
    /// Model to use, if pinned.
    pub model_id: Option<String>,
    /// Inference options.
    pub options: Option<InferenceOptions>,
    /// Session identifier for request tracking.
    pub session_id: Option<String>,
}

impl InferenceRequest {
    /// Create a request for the given prompt.
    pub fn new(prompt: &str) -> (r: Self)
        ensures
            r.prompt@ == prompt@,
            r.model_id is None,
            r.options is None,
            r.session_id is None,
    {
        InferenceRequest {
            prompt: String::from_str(prompt),
            model_id: None,
            options: None,
            session_id: None,
        }
    }

    /// Pin the model.
    pub fn model_id(self, model_id: &str) -> (r: Self)
        ensures
            r.prompt == self.prompt,
            r.options == self.options,
            r.session_id == self.session_id,
            r.model_id matches Some(m) && m@ == model_id@,
    {
        InferenceRequest { model_id: Some(String::from_str(model_id)), ..self }
    }

    /// Set the options.
    pub fn options(self, options: InferenceOptions) -> (r: Self)
        ensures
            r == (InferenceRequest { options: Some(options), ..self }),
    {
        InferenceRequest { options: Some(options), ..self }
    }

    /// Set the session identifier.
    pub fn session_id(self, session_id: &str) -> (r: Self)
        ensures
            r.prompt == self.prompt,
            r.options == self.options,
            r.model_id == self.model_id,
            r.session_id matches Some(s) && s@ == session_id@,
    {
        InferenceRequest { session_id: Some(String::from_str(session_id)), ..self }
    }
}

impl InferenceRequest {
    /// Turn on streaming for this request: existing options keep their
    /// other settings, and a request without options gets the defaults
    /// with streaming on.
    pub fn enable_streaming(&mut self)
        ensures
            final(self).prompt == old(self).prompt,
            final(self).model_id == old(self).model_id,
            final(self).session_id == old(self).session_id,
            final(self).options matches Some(o) && o.stream == Some(true),
            old(self).options matches Some(o0) ==> final(self).options matches Some(o)
                && o == (InferenceOptions { stream: Some(true), ..o0 }),
    {
        let mut current: Option<InferenceOptions> = None;
        core::mem::swap(&mut self.options, &mut current);
        let options = match current {
            Some(o) => o.stream(true),
            None => InferenceOptions::new().stream(true),
        };
        self.options = Some(options);
    }
}

/// One inference response.
#[derive(Debug, Clone)]
pub struct InferenceResponse {
    /// Generated text.
    pub text: String,
    /// Model that served the request.
    pub model_id: Option<String>,
    /// Reported metrics.
    pub metrics: Option<InferenceMetrics>,
    /// Whether the request succeeded.
    pub success: bool,
    /// Error message, if any.
    pub error: Option<String>,
}

/// Request to load a model.
#[derive(Debug, Clone)]
pub struct LoadModelRequest {
    /// Model source: file path or URL.
    pub source: String,
    /// Model format.
    pub format: Option<String>,
    /// Model identifier to register under.
    pub id: Option<String>,
    /// Human-readable name.
    pub name: Option<String>,
    /// Reload even when already loaded.
    pub force_reload: bool,
}

impl LoadModelRequest {
    /// Create a request for the given source.
    pub fn new(source: &str) -> (r: Self)
        ensures
            r.source@ == source@,
            r.format is None,
            r.id is None,
            r.name is None,
            !r.force_reload,
    {
        LoadModelRequest {
            source: String::from_str(source),
            format: None,
            id: None,
            name: None,
            force_reload: false,
        }
    }

    /// Set the format.
    pub fn format(self, format: &str) -> (r: Self)
        ensures
            r.source == self.source,
            r.id == self.id,
            r.name == self.name,
            r.force_reload == self.force_reload,
            r.format matches Some(f) && f@ == format@,
    {
        LoadModelRequest { format: Some(String::from_str(format)), ..self }
    }

    /// Set the identifier.
    pub fn id(self, id: &str) -> (r: Self)
        ensures
            r.source == self.source,
            r.format == self.format,
            r.name == self.name,
            r.force_reload == self.force_reload,
            r.id matches Some(v) && v@ == id@,
    {
        LoadModelRequest { id: Some(String::from_str(id)), ..self }
    }

    /// Set the name.
    pub fn name(self, name: &str) -> (r: Self)
        ensures
            r.source == self.source,
            r.format == self.format,
            r.id == self.id,
            r.force_reload == self.force_reload,
            r.name matches Some(v) && v@ == name@,
    {
        LoadModelRequest { name: Some(String::from_str(name)), ..self }
    }

    /// Set whether to force a reload.
    pub fn force_reload(self, force: bool) -> (r: Self)
        ensures
            r == (LoadModelRequest { force_reload: force, ..self }),
    {
        LoadModelRequest { force_reload: force, ..self }
    }
}

/// Response to loading a model.
#[derive(Debug, Clone)]
pub struct LoadModelResponse {
    /// Whether loading succeeded.
    pub success: bool,
    /// Status message.
    pub message: Option<String>,
    /// The loaded model, on success.
    pub model: Option<ModelInfo>,
    /// Error message, if any.
    pub error: Option<String>,
}

/// A batch of inference requests with its execution options.
#[derive(Debug, Clone)]
pub struct BatchInferenceRequest {
    /// The requests, in submission order.
    pub requests: Vec<InferenceRequest>,
    /// Concurrency cap.
    pub max_concurrent: Option<u32>,
    /// Shared deadline for the whole batch, in milliseconds.
    pub timeout_ms: Option<u64>,
    /// Abort remaining work on the first failure.
    pub fail_fast: bool,
    /// Request priority label.
    pub priority: Option<String>,
}

impl BatchInferenceRequest {
    /// Create a batch with the default cap of five concurrent requests and
    /// a thirty second deadline.
    pub fn new(requests: Vec<InferenceRequest>) -> (r: Self)
        ensures
            r.requests == requests,
            r.max_concurrent == Some(5u32),
            r.timeout_ms == Some(30000u64),
            !r.fail_fast,
            r.priority is None,
    {
        BatchInferenceRequest {
            requests,
            max_concurrent: Some(5),
            timeout_ms: Some(30000),
            fail_fast: false,
            priority: None,
        }
    }

    /// Set the concurrency cap.
    pub fn max_concurrent(self, max_concurrent: u32) -> (r: Self)
        ensures
            r == (BatchInferenceRequest { max_concurrent: Some(max_concurrent), ..self }),
    {
        BatchInferenceRequest { max_concurrent: Some(max_concurrent), ..self }
    }

    /// Set the shared deadline.
    pub fn timeout_ms(self, timeout_ms: u64) -> (r: Self)
        ensures
            r == (BatchInferenceRequest { timeout_ms: Some(timeout_ms), ..self }),
    {
        BatchInferenceRequest { timeout_ms: Some(timeout_ms), ..self }
    }

    /// Set the fail-fast behaviour.
    pub fn fail_fast(self, fail_fast: bool) -> (r: Self)
        ensures
            r == (BatchInferenceRequest { fail_fast, ..self }),
    {
        BatchInferenceRequest { fail_fast, ..self }
    }
}

/// Aggregate response to a batch of inference requests.
#[derive(Debug, Clone)]
pub struct BatchInferenceResponse {
    /// Per-request responses, in submission order.
    pub responses: Vec<InferenceResponse>,
    /// Total number of requests.
    pub total_requests: u32,
    /// Number that succeeded.
    pub successful_requests: u32,
    /// Number that failed.
    pub failed_requests: u32,
    /// Total processing time in milliseconds.
    pub total_time_ms: Option<u64>,
    /// Whether the batch as a whole succeeded.
    pub success: bool,
    /// Error message, if any.
    pub error: Option<String>,
}

} // verus!
