use vstd::prelude::*;

verus! {

/// The backend families a request can be dispatched to.
#[derive(Clone, Copy, Debug, PartialEq, Eq, Structural)]
pub enum LLMProvider {
    Ollama,
    LMStudio,
    OpenAI,
}

impl LLMProvider {
    pub open spec fn label(self) -> Seq<char> {
        match self {
            LLMProvider::Ollama => "Ollama"@,
            LLMProvider::LMStudio => "LM Studio"@,
            LLMProvider::OpenAI => "OpenAI"@,
        }
    }

    /// The human-readable name of the provider.
    pub fn display_name(&self) -> (r: &'static str)
        ensures
            r@ == self.label(),
    {
        match self {
            LLMProvider::Ollama => "Ollama",
            LLMProvider::LMStudio => "LM Studio",
            LLMProvider::OpenAI => "OpenAI",
        }
    }
}

/// One turn of a conversation.
#[derive(Clone, Debug)]
pub struct Message {
    pub role: String,
    pub content: String,
}

impl Message {
    pub fn system(content: &str) -> (r: Self)
        ensures
            r.role@ == "system"@,
            r.content@ == content@,
    {
        Message { role: String::from_str("system"), content: String::from_str(content) }
    }

    pub fn user(content: &str) -> (r: Self)
        ensures
            r.role@ == "user"@,
            r.content@ == content@,
    {
        Message { role: String::from_str("user"), content: String::from_str(content) }
    }

    pub fn assistant(content: &str) -> (r: Self)
        ensures
            r.role@ == "assistant"@,
            r.content@ == content@,
    {
        Message { role: String::from_str("assistant"), content: String::from_str(content) }
    }
}

/// Where a model stands on its server.
#[derive(Clone, Debug)]
pub enum ModelStatus {
    Loaded,
    NotLoaded,
    Downloading,
    Error(String),
}

/// A rate in tokens per second, held exactly as `numerator / denominator`.
#[derive(Clone, Copy, Debug, PartialEq, Eq, Structural)]
pub struct Throughput {
    pub numerator: u64,
    pub denominator: u64,
}

/// Tokens per second for `tokens` generated in `ms` milliseconds:
/// `tokens * 1000 / ms`, or zero when no time elapsed.
pub open spec fn throughput_of(tokens: u32, ms: u64) -> Throughput {
    if ms > 0 {
        Throughput { numerator: (tokens * 1000) as u64, denominator: ms }
    } else {
        Throughput { numerator: 0, denominator: 1 }
    }
}

/// Derives the throughput of a generation from its token count and its
/// wall-clock duration.
pub fn throughput(tokens_generated: u32, generation_time_ms: u64) -> (r: Throughput)
    ensures
        r == throughput_of(tokens_generated, generation_time_ms),
{
    if generation_time_ms > 0 {
        Throughput { numerator: tokens_generated as u64 * 1000, denominator: generation_time_ms }
    } else {
        Throughput { numerator: 0, denominator: 1 }
    }
}

/// Performance figures a backend may report for a model.
#[derive(Clone, Debug)]
pub struct PerformanceMetrics {
    pub tokens_per_second: Throughput,
    pub time_to_first_token_ms: Option<u64>,
    pub memory_usage: Option<u64>,
    pub last_updated: String,
}

/// A model as one provider lists it.
#[derive(Clone, Debug)]
pub struct ModelInfo {
    pub id: String,
    pub name: String,
    pub size: Option<u64>,
    pub provider: LLMProvider,
    pub status: ModelStatus,
    pub performance: Option<PerformanceMetrics>,
    pub context_length: Option<u32>,
    pub quantization: Option<String>,
}

/// Sampling temperature used when the caller gives none, in thousandths.
pub const DEFAULT_TEMPERATURE_MILLI: i32 = 700;

/// Completion budget used when the caller gives none.
pub const DEFAULT_MAX_TOKENS: i32 = 2048;

/// Nucleus-sampling bound used when the caller gives none, in thousandths.
pub const DEFAULT_TOP_P_MILLI: i32 = 900;

/// Whether the optional sampling settings lie in the range every backend
/// accepts: a temperature of at least zero, a top-p between zero and one.
pub open spec fn options_in_range(temperature_milli: Option<i32>, top_p_milli: Option<i32>) -> bool {
    &&& (temperature_milli matches Some(t) ==> t >= 0)
    &&& (top_p_milli matches Some(p) ==> 0 <= p <= 1000)
}

/// Sampling settings with every default applied.
#[derive(Clone, Copy, Debug, PartialEq, Eq, Structural)]
pub struct SamplingOptions {
    pub temperature_milli: i32,
    pub max_tokens: i32,
    pub top_p_milli: i32,
}

pub open spec fn or_default(v: Option<i32>, d: i32) -> i32 {
    match v {
        Some(x) => x,
        None => d,
    }
}

/// Fills each setting the caller left out with its default.
pub fn resolve_options(temperature_milli: Option<i32>, max_tokens: Option<i32>, top_p_milli: Option<i32>) -> (r: SamplingOptions)
    ensures
        r.temperature_milli == or_default(temperature_milli, DEFAULT_TEMPERATURE_MILLI),
        r.max_tokens == or_default(max_tokens, DEFAULT_MAX_TOKENS),
        r.top_p_milli == or_default(top_p_milli, DEFAULT_TOP_P_MILLI),
{
    SamplingOptions {
        temperature_milli: match temperature_milli {
            Some(t) => t,
            None => DEFAULT_TEMPERATURE_MILLI,
        },
        max_tokens: match max_tokens {
            Some(m) => m,
            None => DEFAULT_MAX_TOKENS,
        },
        top_p_milli: match top_p_milli {
            Some(p) => p,
            None => DEFAULT_TOP_P_MILLI,
        },
    }
}

fn check_options(model: &String, temperature_milli: Option<i32>, top_p_milli: Option<i32>) -> (r: Result<(), LlmError>)
    ensures
        r is Ok <==> (model@.len() > 0 && options_in_range(temperature_milli, top_p_milli)),
        r matches Err(e) ==> e is InvalidRequest,
{
    if model.as_str().unicode_len() == 0 {
        return Err(LlmError::InvalidRequest(String::from_str("model must not be empty")));
    }
    match temperature_milli {
        Some(t) => {
            if t < 0 {
                return Err(LlmError::InvalidRequest(String::from_str("temperature must not be negative")));
            }
        },
        None => {},
    }
    match top_p_milli {
        Some(p) => {
            if p < 0 || p > 1000 {
                return Err(LlmError::InvalidRequest(String::from_str("top_p must lie between 0 and 1")));
            }
        },
        None => {},
    }
    Ok(())
}

/// A one-shot completion request. Temperature and top-p are in thousandths.
#[derive(Clone, Debug)]
pub struct GenerateRequest {
    pub model: String,
    pub prompt: String,
    pub temperature_milli: Option<i32>,
    pub max_tokens: Option<i32>,
    pub top_p_milli: Option<i32>,
    pub stream: bool,
}

impl GenerateRequest {
    pub open spec fn is_valid(&self) -> bool {
        self.model@.len() > 0 && options_in_range(self.temperature_milli, self.top_p_milli)
    }

    /// Accepts the request, or rejects it before anything is sent.
    pub fn validate(&self) -> (r: Result<(), LlmError>)
        ensures
            r is Ok <==> self.is_valid(),
            r matches Err(e) ==> e is InvalidRequest,
    {
        check_options(&self.model, self.temperature_milli, self.top_p_milli)
    }

    pub fn options(&self) -> (r: SamplingOptions)
        ensures
            r.temperature_milli == or_default(self.temperature_milli, DEFAULT_TEMPERATURE_MILLI),
            r.max_tokens == or_default(self.max_tokens, DEFAULT_MAX_TOKENS),
            r.top_p_milli == or_default(self.top_p_milli, DEFAULT_TOP_P_MILLI),
    {
        resolve_options(self.temperature_milli, self.max_tokens, self.top_p_milli)
    }
}

/// The normalised result of a completion.
#[derive(Clone, Debug)]
pub struct GenerateResponse {
    pub text: String,
    pub model: String,
    pub tokens_generated: u32,
    pub generation_time_ms: u64,
    pub tokens_per_second: Throughput,
}

impl GenerateResponse {
    pub open spec fn wf(&self) -> bool {
        self.tokens_per_second == throughput_of(self.tokens_generated, self.generation_time_ms)
    }

    /// Builds a response whose throughput is derived from its own counts.
    pub fn new(text: String, model: String, tokens_generated: u32, generation_time_ms: u64) -> (r: Self)
        ensures
            r.wf(),
            r.text == text,
            r.model == model,
            r.tokens_generated == tokens_generated,
            r.generation_time_ms == generation_time_ms,
    {
        GenerateResponse {
            text,
            model,
            tokens_generated,
            generation_time_ms,
            tokens_per_second: throughput(tokens_generated, generation_time_ms),
        }
    }
}

/// A chat request: the conversation so far and the sampling settings.
#[derive(Clone, Debug)]
pub struct ChatRequest {
    pub model: String,
    pub messages: Vec<Message>,
    pub temperature_milli: Option<i32>,
    pub max_tokens: Option<i32>,
    pub top_p_milli: Option<i32>,
    pub stream: bool,
}

impl ChatRequest {
    pub open spec fn is_valid(&self) -> bool {
        self.model@.len() > 0 && options_in_range(self.temperature_milli, self.top_p_milli)
    }

    /// Accepts the request, or rejects it before anything is sent.
    pub fn validate(&self) -> (r: Result<(), LlmError>)
        ensures
            r is Ok <==> self.is_valid(),
            r matches Err(e) ==> e is InvalidRequest,
    {
        check_options(&self.model, self.temperature_milli, self.top_p_milli)
    }

    pub fn options(&self) -> (r: SamplingOptions)
        ensures
            r.temperature_milli == or_default(self.temperature_milli, DEFAULT_TEMPERATURE_MILLI),
            r.max_tokens == or_default(self.max_tokens, DEFAULT_MAX_TOKENS),
            r.top_p_milli == or_default(self.top_p_milli, DEFAULT_TOP_P_MILLI),
    {
        resolve_options(self.temperature_milli, self.max_tokens, self.top_p_milli)
    }
}

/// The normalised result of a chat turn.
#[derive(Clone, Debug)]
pub struct ChatResponse {
    pub message: Message,
    pub model: String,
    pub tokens_generated: u32,
    pub generation_time_ms: u64,
    pub tokens_per_second: Throughput,
}

impl ChatResponse {
    pub open spec fn wf(&self) -> bool {
        self.tokens_per_second == throughput_of(self.tokens_generated, self.generation_time_ms)
    }

    /// Builds a response whose throughput is derived from its own counts.
    pub fn new(message: Message, model: String, tokens_generated: u32, generation_time_ms: u64) -> (r: Self)
        ensures
            r.wf(),
            r.message == message,
            r.model == model,
            r.tokens_generated == tokens_generated,
            r.generation_time_ms == generation_time_ms,
    {
        ChatResponse {
            message,
            model,
            tokens_generated,
            generation_time_ms,
            tokens_per_second: throughput(tokens_generated, generation_time_ms),
        }
    }
}

/// Throughput of any well-formed response: `tokens * 1000 / ms` when time
/// elapsed, zero when none did.
pub proof fn lemma_response_throughput(r: GenerateResponse)
    requires
        r.wf(),
    ensures
        r.generation_time_ms > 0 ==> r.tokens_per_second.numerator == r.tokens_generated * 1000
            && r.tokens_per_second.denominator == r.generation_time_ms,
        r.generation_time_ms == 0 ==> r.tokens_per_second.numerator == 0
            && r.tokens_per_second.denominator > 0,
{
}

/// What discovery learned of one server.
#[derive(Clone, Debug)]
pub struct ServerConnectionStatus {
    pub connected: bool,
    pub version: Option<String>,
    pub models_loaded: Vec<String>,
    pub error: Option<String>,
}

/// One connection status per known server.
#[derive(Clone, Debug)]
pub struct ServerStatus {
    pub ollama: ServerConnectionStatus,
    pub lmstudio: ServerConnectionStatus,
}

/// Why an operation against a backend failed.
#[derive(Clone, Debug)]
pub enum LlmError {
    /// The server could not be reached: refused, unresolved or timed out.
    Transport(String),
    /// The server answered with a status outside 2xx; holds its error text.
    Upstream(String),
    /// The body did not have the expected shape.
    Protocol(String),
    /// No model of that id is listed.
    NotFound(String),
    /// The request was rejected before it was sent.
    InvalidRequest(String),
}

} // verus!
