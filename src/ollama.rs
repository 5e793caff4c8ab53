use vstd::prelude::*;
use crate::text::{first_quant, find_quant, joined, opt_view, split, split_on, views};
use crate::types::{
    or_default, throughput_of, ChatRequest, ChatResponse, GenerateRequest, GenerateResponse,
    LLMProvider, LlmError, Message, ModelInfo, ModelStatus, DEFAULT_MAX_TOKENS,
    DEFAULT_TEMPERATURE_MILLI, DEFAULT_TOP_P_MILLI,
};

verus! {

/// Context length reported for every listed model, which the server does
/// not state.
pub const DEFAULT_CONTEXT_LENGTH: u32 = 4096;

/// Adapter for the server family with the `/api/...` protocol. Holds the
/// base URL; the transport is supplied by the caller.
pub struct OllamaClient {
    pub base_url: String,
}

/// One entry of the server's model listing.
#[derive(Clone, Debug)]
pub struct OllamaModel {
    pub name: String,
    pub size: Option<u64>,
}

/// Sampling settings in the shape the server expects.
#[derive(Clone, Copy, Debug, PartialEq, Eq, Structural)]
pub struct OllamaOptions {
    pub temperature_milli: i32,
    pub top_p_milli: i32,
    pub num_predict: i32,
}

/// Body of a completion request.
#[derive(Clone, Debug)]
pub struct OllamaGenerateBody {
    pub model: String,
    pub prompt: String,
    pub stream: bool,
    pub options: OllamaOptions,
}

/// Body of a chat request.
#[derive(Clone, Debug)]
pub struct OllamaChatBody {
    pub model: String,
    pub messages: Vec<Message>,
    pub stream: bool,
    pub options: OllamaOptions,
}

/// The fields of a completion reply that the adapter reads.
#[derive(Clone, Debug)]
pub struct OllamaGenerateReply {
    pub model: String,
    pub response: String,
    pub eval_count: Option<u32>,
}

/// The fields of a chat reply that the adapter reads.
#[derive(Clone, Debug)]
pub struct OllamaChatReply {
    pub model: String,
    pub message: Message,
    pub eval_count: Option<u32>,
}

/// Display name of a `name:tag` model id: the name and the tag joined by a
/// dash; an id without a colon is shown as it is.
pub open spec fn ollama_display(id: Seq<char>) -> Seq<char> {
    let parts = split(id, ':');
    if parts.len() > 1 {
        parts[0] + "-"@ + parts[1]
    } else {
        id
    }
}

/// Quantisation tag of a `name:tag` model id: the first dash-separated
/// segment of the tag that begins with `q` or `Q`.
pub open spec fn ollama_quant(id: Seq<char>) -> Option<Seq<char>> {
    let parts = split(id, ':');
    if parts.len() > 1 {
        first_quant(split(parts[1], '-'))
    } else {
        None
    }
}

/// Splits a model id such as `codellama:13b-instruct-q4_0` into a display
/// name and a quantisation tag. Never fails.
pub fn parse_model_name(full_name: &str) -> (r: (String, Option<String>))
    ensures
        r.0@ == ollama_display(full_name@),
        opt_view(r.1) == ollama_quant(full_name@),
{
    let parts = split_on(full_name, ':');
    if parts.len() > 1 {
        let tag = parts[1].as_str();
        assert(views(parts@)[0] == parts@[0]@ && views(parts@)[1] == tag@);
        let mut name = parts[0].clone();
        name.append("-");
        name.append(tag);
        let tag_parts = split_on(tag, '-');
        (name, find_quant(&tag_parts))
    } else {
        (String::from_str(full_name), None)
    }
}

/// Whether `info` is the listing entry built from the server's `m`.
pub open spec fn is_listed_from(m: OllamaModel, info: ModelInfo) -> bool {
    &&& info.id@ == m.name@
    &&& info.name@ == ollama_display(m.name@)
    &&& info.size == m.size
    &&& info.provider == LLMProvider::Ollama
    &&& info.status is Loaded
    &&& info.performance is None
    &&& info.context_length == Some(DEFAULT_CONTEXT_LENGTH)
    &&& opt_view(info.quantization) == ollama_quant(m.name@)
}

pub open spec fn options_of(temperature_milli: Option<i32>, max_tokens: Option<i32>, top_p_milli: Option<i32>) -> OllamaOptions {
    OllamaOptions {
        temperature_milli: or_default(temperature_milli, DEFAULT_TEMPERATURE_MILLI),
        top_p_milli: or_default(top_p_milli, DEFAULT_TOP_P_MILLI),
        num_predict: or_default(max_tokens, DEFAULT_MAX_TOKENS),
    }
}

impl OllamaClient {
    pub fn new(base_url: String) -> (r: Self)
        ensures
            r.base_url == base_url,
    {
        OllamaClient { base_url }
    }

    /// Where the model listing is fetched; also the health probe.
    pub fn tags_url(&self) -> (r: String)
        ensures
            r@ == self.base_url@ + "/api/tags"@,
    {
        joined(&self.base_url, "/api/tags")
    }

    pub fn generate_url(&self) -> (r: String)
        ensures
            r@ == self.base_url@ + "/api/generate"@,
    {
        joined(&self.base_url, "/api/generate")
    }

    pub fn chat_url(&self) -> (r: String)
        ensures
            r@ == self.base_url@ + "/api/chat"@,
    {
        joined(&self.base_url, "/api/chat")
    }

    /// Turns the server's listing into model descriptions, in its order.
    pub fn list_models(&self, listing: &Vec<OllamaModel>) -> (r: Vec<ModelInfo>)
        ensures
            r@.len() == listing@.len(),
            forall|i: int| 0 <= i < r@.len() ==> is_listed_from(#[trigger] listing@[i], r@[i]),
    {
        let mut out: Vec<ModelInfo> = Vec::new();
        let mut i: usize = 0;
        while i < listing.len()
            invariant
                i <= listing@.len(),
                out@.len() == i,
                forall|k: int| 0 <= k < i ==> is_listed_from(#[trigger] listing@[k], out@[k]),
            decreases listing.len() - i,
        {
            let m = &listing[i];
            let (name, quantization) = parse_model_name(m.name.as_str());
            out.push(
                ModelInfo {
                    id: m.name.clone(),
                    name,
                    size: m.size,
                    provider: LLMProvider::Ollama,
                    status: ModelStatus::Loaded,
                    performance: None,
                    context_length: Some(DEFAULT_CONTEXT_LENGTH),
                    quantization,
                },
            );
            i = i + 1;
        }
        out
    }

    /// Shapes a completion request for the server, with defaults applied and
    /// streaming off; an invalid request is rejected.
    pub fn generate_body(&self, request: GenerateRequest) -> (r: Result<OllamaGenerateBody, LlmError>)
        ensures
            r is Ok <==> request.is_valid(),
            r matches Err(e) ==> e is InvalidRequest,
            r matches Ok(b) ==> b.model == request.model && b.prompt == request.prompt && !b.stream
                && b.options == options_of(request.temperature_milli, request.max_tokens, request.top_p_milli),
    {
        match request.validate() {
            Err(e) => Err(e),
            Ok(()) => {
                let o = request.options();
                Ok(OllamaGenerateBody {
                    model: request.model,
                    prompt: request.prompt,
                    stream: false,
                    options: OllamaOptions {
                        temperature_milli: o.temperature_milli,
                        top_p_milli: o.top_p_milli,
                        num_predict: o.max_tokens,
                    },
                })
            },
        }
    }

    /// Shapes a chat request for the server, with defaults applied and
    /// streaming off; an invalid request is rejected.
    pub fn chat_body(&self, request: ChatRequest) -> (r: Result<OllamaChatBody, LlmError>)
        ensures
            r is Ok <==> request.is_valid(),
            r matches Err(e) ==> e is InvalidRequest,
            r matches Ok(b) ==> b.model == request.model && b.messages == request.messages && !b.stream
                && b.options == options_of(request.temperature_milli, request.max_tokens, request.top_p_milli),
    {
        match request.validate() {
            Err(e) => Err(e),
            Ok(()) => {
                let o = request.options();
                Ok(OllamaChatBody {
                    model: request.model,
                    messages: request.messages,
                    stream: false,
                    options: OllamaOptions {
                        temperature_milli: o.temperature_milli,
                        top_p_milli: o.top_p_milli,
                        num_predict: o.max_tokens,
                    },
                })
            },
        }
    }

    /// Normalises a completion reply; `elapsed_ms` is the measured round trip.
    pub fn finish_generate(&self, reply: OllamaGenerateReply, elapsed_ms: u64) -> (r: GenerateResponse)
        ensures
            r.wf(),
            r.text == reply.response,
            r.model == reply.model,
            r.tokens_generated == (match reply.eval_count { Some(n) => n, None => 0u32 }),
            r.generation_time_ms == elapsed_ms,
            r.tokens_per_second == throughput_of(r.tokens_generated, elapsed_ms),
    {
        let tokens: u32 = match reply.eval_count {
            Some(n) => n,
            None => 0,
        };
        GenerateResponse::new(reply.response, reply.model, tokens, elapsed_ms)
    }

    /// Normalises a chat reply; `elapsed_ms` is the measured round trip.
    pub fn finish_chat(&self, reply: OllamaChatReply, elapsed_ms: u64) -> (r: ChatResponse)
        ensures
            r.wf(),
            r.message == reply.message,
            r.model == reply.model,
            r.tokens_generated == (match reply.eval_count { Some(n) => n, None => 0u32 }),
            r.generation_time_ms == elapsed_ms,
            r.tokens_per_second == throughput_of(r.tokens_generated, elapsed_ms),
    {
        let tokens: u32 = match reply.eval_count {
            Some(n) => n,
            None => 0,
        };
        ChatResponse::new(reply.message, reply.model, tokens, elapsed_ms)
    }
}

} // verus!
