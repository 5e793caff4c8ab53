use vstd::prelude::*;
use crate::ollama::DEFAULT_CONTEXT_LENGTH;
use crate::text::{
    contains, contains_str, find_quant, first_quant, joined, lemma_split_nonempty, opt_view,
    remove_all, remove_all_of, split, split_on,
};
use crate::types::{
    or_default, throughput_of, ChatRequest, ChatResponse, GenerateRequest, GenerateResponse,
    LLMProvider, LlmError, Message, ModelInfo, ModelStatus, DEFAULT_MAX_TOKENS,
    DEFAULT_TEMPERATURE_MILLI, DEFAULT_TOP_P_MILLI,
};

verus! {

/// Adapter for the OpenAI-compatible server family (`/v1/...`). Holds the
/// base URL; the transport is supplied by the caller.
pub struct LMStudioClient {
    pub base_url: String,
}

/// One entry of the server's model listing.
#[derive(Clone, Debug)]
pub struct LMStudioModel {
    pub id: String,
}

/// Body of a completion request.
#[derive(Clone, Debug)]
pub struct LMStudioCompletionBody {
    pub model: String,
    pub prompt: String,
    pub temperature_milli: i32,
    pub max_tokens: i32,
    pub top_p_milli: i32,
    pub stream: bool,
}

/// Body of a chat request.
#[derive(Clone, Debug)]
pub struct LMStudioChatBody {
    pub model: String,
    pub messages: Vec<Message>,
    pub temperature_milli: i32,
    pub max_tokens: i32,
    pub top_p_milli: i32,
    pub stream: bool,
}

/// Token accounting of a reply.
#[derive(Clone, Copy, Debug, PartialEq, Eq, Structural)]
pub struct Usage {
    pub prompt_tokens: u32,
    pub completion_tokens: u32,
    pub total_tokens: u32,
}

#[derive(Clone, Debug)]
pub struct CompletionChoice {
    pub text: String,
}

#[derive(Clone, Debug)]
pub struct ChatChoice {
    pub message: Message,
}

/// The fields of a completion reply that the adapter reads.
#[derive(Clone, Debug)]
pub struct LMStudioCompletionReply {
    pub model: String,
    pub choices: Vec<CompletionChoice>,
    pub usage: Usage,
}

/// The fields of a chat reply that the adapter reads.
#[derive(Clone, Debug)]
pub struct LMStudioChatReply {
    pub model: String,
    pub choices: Vec<ChatChoice>,
    pub usage: Usage,
}

/// The file part of a model path: what follows its last `/`.
pub open spec fn file_part(id: Seq<char>) -> Seq<char> {
    split(id, '/').last()
}

/// Display name of a model path: its file part without the file extensions
/// and the common quantisation suffixes.
pub open spec fn lmstudio_display(id: Seq<char>) -> Seq<char> {
    remove_all(
        remove_all(
            remove_all(remove_all(remove_all(file_part(id), ".gguf"@), ".bin"@), ".Q4_K_M"@),
            ".Q5_K_M"@,
        ),
        ".Q8_0"@,
    )
}

/// Quantisation tag of a model path: where the file part holds `.Q` or
/// `.q`, its first dot-separated segment that begins with `q` or `Q`.
pub open spec fn lmstudio_quant(id: Seq<char>) -> Option<Seq<char>> {
    let f = file_part(id);
    if contains(f, ".Q"@) || contains(f, ".q"@) {
        first_quant(split(f, '.'))
    } else {
        None
    }
}

/// Splits a model path such as
/// `TheBloke/CodeLlama-13B-Instruct-GGUF/codellama-13b-instruct.Q4_K_M.gguf`
/// into a display name and a quantisation tag. Never fails.
pub fn parse_lmstudio_model_name(model_id: &str) -> (r: (String, Option<String>))
    ensures
        r.0@ == lmstudio_display(model_id@),
        opt_view(r.1) == lmstudio_quant(model_id@),
{
    let parts = split_on(model_id, '/');
    proof {
        lemma_split_nonempty(model_id@, '/');
    }
    let file_name = parts[parts.len() - 1].as_str();
    assert(file_name@ == file_part(model_id@));
    let quantization = if contains_str(file_name, ".Q") || contains_str(file_name, ".q") {
        let segs = split_on(file_name, '.');
        find_quant(&segs)
    } else {
        None
    };
    let a = remove_all_of(file_name, ".gguf");
    let b = remove_all_of(a.as_str(), ".bin");
    let c = remove_all_of(b.as_str(), ".Q4_K_M");
    let d = remove_all_of(c.as_str(), ".Q5_K_M");
    let name = remove_all_of(d.as_str(), ".Q8_0");
    (name, quantization)
}

/// Whether `info` is the listing entry built from the server's `m`.
pub open spec fn is_listed_from(m: LMStudioModel, info: ModelInfo) -> bool {
    &&& info.id@ == m.id@
    &&& info.name@ == lmstudio_display(m.id@)
    &&& info.size is None
    &&& info.provider == LLMProvider::LMStudio
    &&& info.status is Loaded
    &&& info.performance is None
    &&& info.context_length == Some(DEFAULT_CONTEXT_LENGTH)
    &&& opt_view(info.quantization) == lmstudio_quant(m.id@)
}

/// Whether `b` carries the settings of a request, defaults applied.
pub open spec fn carries_options(
    temperature_milli: i32,
    max_tokens: i32,
    top_p_milli: i32,
    t: Option<i32>,
    m: Option<i32>,
    p: Option<i32>,
) -> bool {
    &&& temperature_milli == or_default(t, DEFAULT_TEMPERATURE_MILLI)
    &&& max_tokens == or_default(m, DEFAULT_MAX_TOKENS)
    &&& top_p_milli == or_default(p, DEFAULT_TOP_P_MILLI)
}

impl LMStudioClient {
    pub fn new(base_url: String) -> (r: Self)
        ensures
            r.base_url == base_url,
    {
        LMStudioClient { base_url }
    }

    /// Where the model listing is fetched; also the health probe.
    pub fn models_url(&self) -> (r: String)
        ensures
            r@ == self.base_url@ + "/v1/models"@,
    {
        joined(&self.base_url, "/v1/models")
    }

    pub fn completions_url(&self) -> (r: String)
        ensures
            r@ == self.base_url@ + "/v1/completions"@,
    {
        joined(&self.base_url, "/v1/completions")
    }

    pub fn chat_url(&self) -> (r: String)
        ensures
            r@ == self.base_url@ + "/v1/chat/completions"@,
    {
        joined(&self.base_url, "/v1/chat/completions")
    }

    /// Turns the server's listing into model descriptions, in its order.
    pub fn list_models(&self, listing: &Vec<LMStudioModel>) -> (r: Vec<ModelInfo>)
        ensures
            r@.len() == listing@.len(),
            forall|i: int| 0 <= i < r@.len() ==> is_listed_from(#[trigger] listing@[i], r@[i]),
    {
        let mut out: Vec<ModelInfo> = Vec::new();
        let mut i: usize = 0;
        while i < listing.len()
            invariant
                i <= listing@.len(),
                out@.len() == i,
                forall|k: int| 0 <= k < i ==> is_listed_from(#[trigger] listing@[k], out@[k]),
            decreases listing.len() - i,
        {
            let m = &listing[i];
            let (name, quantization) = parse_lmstudio_model_name(m.id.as_str());
            out.push(
                ModelInfo {
                    id: m.id.clone(),
                    name,
                    size: None,
                    provider: LLMProvider::LMStudio,
                    status: ModelStatus::Loaded,
                    performance: None,
                    context_length: Some(DEFAULT_CONTEXT_LENGTH),
                    quantization,
                },
            );
            i = i + 1;
        }
        out
    }

    /// Shapes a completion request for the server, with defaults applied and
    /// streaming off; an invalid request is rejected.
    pub fn generate_body(&self, request: GenerateRequest) -> (r: Result<LMStudioCompletionBody, LlmError>)
        ensures
            r is Ok <==> request.is_valid(),
            r matches Err(e) ==> e is InvalidRequest,
            r matches Ok(b) ==> b.model == request.model && b.prompt == request.prompt && !b.stream
                && carries_options(b.temperature_milli, b.max_tokens, b.top_p_milli,
                    request.temperature_milli, request.max_tokens, request.top_p_milli),
    {
        match request.validate() {
            Err(e) => Err(e),
            Ok(()) => {
                let o = request.options();
                Ok(LMStudioCompletionBody {
                    model: request.model,
                    prompt: request.prompt,
                    temperature_milli: o.temperature_milli,
                    max_tokens: o.max_tokens,
                    top_p_milli: o.top_p_milli,
                    stream: false,
                })
            },
        }
    }

    /// Shapes a chat request for the server, with defaults applied and
    /// streaming off; an invalid request is rejected.
    pub fn chat_body(&self, request: ChatRequest) -> (r: Result<LMStudioChatBody, LlmError>)
        ensures
            r is Ok <==> request.is_valid(),
            r matches Err(e) ==> e is InvalidRequest,
            r matches Ok(b) ==> b.model == request.model && b.messages == request.messages && !b.stream
                && carries_options(b.temperature_milli, b.max_tokens, b.top_p_milli,
                    request.temperature_milli, request.max_tokens, request.top_p_milli),
    {
        match request.validate() {
            Err(e) => Err(e),
            Ok(()) => {
                let o = request.options();
                Ok(LMStudioChatBody {
                    model: request.model,
                    messages: request.messages,
                    temperature_milli: o.temperature_milli,
                    max_tokens: o.max_tokens,
                    top_p_milli: o.top_p_milli,
                    stream: false,
                })
            },
        }
    }

    /// Normalises a completion reply: the text of the first choice (empty
    /// when there is none); `elapsed_ms` is the measured round trip.
    pub fn finish_generate(&self, reply: LMStudioCompletionReply, elapsed_ms: u64) -> (r: GenerateResponse)
        ensures
            r.wf(),
            r.text@ == (if reply.choices@.len() > 0 { reply.choices@[0].text@ } else { Seq::<char>::empty() }),
            r.model == reply.model,
            r.tokens_generated == reply.usage.completion_tokens,
            r.generation_time_ms == elapsed_ms,
            r.tokens_per_second == throughput_of(r.tokens_generated, elapsed_ms),
    {
        let text = if reply.choices.len() > 0 {
            reply.choices[0].text.clone()
        } else {
            String::new()
        };
        GenerateResponse::new(text, reply.model, reply.usage.completion_tokens, elapsed_ms)
    }

    /// Normalises a chat reply: the message of the first choice, or an empty
    /// assistant message when there is none; `elapsed_ms` is the measured
    /// round trip.
    pub fn finish_chat(&self, reply: LMStudioChatReply, elapsed_ms: u64) -> (r: ChatResponse)
        ensures
            r.wf(),
            reply.choices@.len() > 0 ==> r.message == reply.choices@[0].message,
            reply.choices@.len() == 0 ==> r.message.role@ == "assistant"@ && r.message.content@
                == Seq::<char>::empty(),
            r.model == reply.model,
            r.tokens_generated == reply.usage.completion_tokens,
            r.generation_time_ms == elapsed_ms,
            r.tokens_per_second == throughput_of(r.tokens_generated, elapsed_ms),
    {
        let mut choices = reply.choices;
        let message = if choices.len() > 0 {
            choices.remove(0).message
        } else {
            proof {
                reveal_strlit("");
            }
            Message::assistant("")
        };
        ChatResponse::new(message, reply.model, reply.usage.completion_tokens, elapsed_ms)
    }
}

} // verus!
