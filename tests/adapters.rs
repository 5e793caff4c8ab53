use llm_router::lmstudio::{
    ChatChoice, CompletionChoice, LMStudioChatReply, LMStudioClient, LMStudioCompletionReply, LMStudioModel, Usage,
};
use llm_router::ollama::{OllamaChatReply, OllamaClient, OllamaGenerateReply, OllamaModel, OllamaOptions};
use llm_router::protocol::{find_model, health_check, status_is_success, upstream_error};
use llm_router::types::{
    throughput, ChatRequest, GenerateRequest, GenerateResponse, LLMProvider, LlmError, Message, ModelStatus,
    Throughput,
};

fn request(model: &str) -> GenerateRequest {
    GenerateRequest {
        model: model.to_string(),
        prompt: "fn main".to_string(),
        temperature_milli: None,
        max_tokens: None,
        top_p_milli: None,
        stream: true,
    }
}

#[test]
fn throughput_formula() {
    assert_eq!(throughput(50, 2000), Throughput { numerator: 50000, denominator: 2000 });
    assert_eq!(throughput(7, 0), Throughput { numerator: 0, denominator: 1 });
    assert_eq!(throughput(u32::MAX, 1), Throughput { numerator: 4294967295000, denominator: 1 });
    let r = GenerateResponse::new("t".to_string(), "m".to_string(), 120, 3000);
    let tps = r.tokens_per_second.numerator as f64 / r.tokens_per_second.denominator as f64;
    assert_eq!(tps, 40.0);
}

#[test]
fn health_collapses_failures() {
    assert!(!health_check(None));
    assert!(health_check(Some(200)));
    assert!(health_check(Some(299)));
    assert!(!health_check(Some(300)));
    assert!(!health_check(Some(503)));
    assert!(!health_check(Some(199)));
    assert!(status_is_success(204));
}

#[test]
fn urls_per_backend() {
    let o = OllamaClient::new("http://localhost:11434".to_string());
    assert_eq!(o.tags_url(), "http://localhost:11434/api/tags");
    assert_eq!(o.generate_url(), "http://localhost:11434/api/generate");
    assert_eq!(o.chat_url(), "http://localhost:11434/api/chat");
    let l = LMStudioClient::new("http://h:1".to_string());
    assert_eq!(l.models_url(), "http://h:1/v1/models");
    assert_eq!(l.completions_url(), "http://h:1/v1/completions");
    assert_eq!(l.chat_url(), "http://h:1/v1/chat/completions");
}

#[test]
fn ollama_body_applies_defaults() {
    let o = OllamaClient::new("b".to_string());
    let body = o.generate_body(request("codellama")).ok().unwrap();
    assert_eq!(body.model, "codellama");
    assert_eq!(body.prompt, "fn main");
    assert!(!body.stream);
    assert_eq!(body.options, OllamaOptions { temperature_milli: 700, top_p_milli: 900, num_predict: 2048 });
    let mut given = request("m");
    given.temperature_milli = Some(0);
    given.max_tokens = Some(16);
    given.top_p_milli = Some(1000);
    let body = o.generate_body(given).ok().unwrap();
    assert_eq!(body.options, OllamaOptions { temperature_milli: 0, top_p_milli: 1000, num_predict: 16 });
}

#[test]
fn invalid_requests_rejected() {
    let o = OllamaClient::new("b".to_string());
    assert!(matches!(o.generate_body(request("")), Err(LlmError::InvalidRequest(_))));
    let mut hot = request("m");
    hot.temperature_milli = Some(-1);
    assert!(matches!(o.generate_body(hot), Err(LlmError::InvalidRequest(_))));
    let mut wide = request("m");
    wide.top_p_milli = Some(1001);
    let l = LMStudioClient::new("b".to_string());
    assert!(matches!(l.generate_body(wide), Err(LlmError::InvalidRequest(_))));
    let chat = ChatRequest {
        model: String::new(),
        messages: vec![],
        temperature_milli: None,
        max_tokens: None,
        top_p_milli: None,
        stream: false,
    };
    assert!(matches!(l.chat_body(chat), Err(LlmError::InvalidRequest(_))));
}

#[test]
fn lmstudio_chat_body_shape() {
    let l = LMStudioClient::new("b".to_string());
    let chat = ChatRequest {
        model: "m".to_string(),
        messages: vec![Message::system("be brief"), Message::user("hi")],
        temperature_milli: Some(250),
        max_tokens: None,
        top_p_milli: None,
        stream: true,
    };
    let body = l.chat_body(chat).ok().unwrap();
    assert_eq!(body.messages.len(), 2);
    assert_eq!(body.messages[0].role, "system");
    assert_eq!(body.messages[1].content, "hi");
    assert_eq!((body.temperature_milli, body.max_tokens, body.top_p_milli, body.stream), (250, 2048, 900, false));
}

#[test]
fn ollama_reply_normalised() {
    let o = OllamaClient::new("b".to_string());
    let reply = OllamaGenerateReply { model: "m:7b".to_string(), response: "out".to_string(), eval_count: None };
    let r = o.finish_generate(reply, 10);
    assert_eq!((r.text.as_str(), r.model.as_str(), r.tokens_generated, r.generation_time_ms), ("out", "m:7b", 0, 10));
    assert_eq!(r.tokens_per_second, Throughput { numerator: 0, denominator: 10 });
    let reply = OllamaChatReply { model: "m".to_string(), message: Message::assistant("yo"), eval_count: Some(30) };
    let c = o.finish_chat(reply, 0);
    assert_eq!(c.message.content, "yo");
    assert_eq!(c.tokens_generated, 30);
    assert_eq!(c.tokens_per_second, Throughput { numerator: 0, denominator: 1 });
}

#[test]
fn lmstudio_reply_normalised() {
    let l = LMStudioClient::new("b".to_string());
    let usage = Usage { prompt_tokens: 3, completion_tokens: 9, total_tokens: 12 };
    let reply = LMStudioCompletionReply {
        model: "x".to_string(),
        choices: vec![CompletionChoice { text: "first".to_string() }, CompletionChoice { text: "second".to_string() }],
        usage,
    };
    let r = l.finish_generate(reply, 3);
    assert_eq!(r.text, "first");
    assert_eq!(r.tokens_per_second, Throughput { numerator: 9000, denominator: 3 });
    let empty = LMStudioCompletionReply { model: "x".to_string(), choices: vec![], usage };
    assert_eq!(l.finish_generate(empty, 3).text, "");
    let none = LMStudioChatReply { model: "x".to_string(), choices: vec![], usage };
    let c = l.finish_chat(none, 5);
    assert_eq!((c.message.role.as_str(), c.message.content.as_str()), ("assistant", ""));
    let some = LMStudioChatReply {
        model: "x".to_string(),
        choices: vec![ChatChoice { message: Message::assistant("a") }, ChatChoice { message: Message::user("b") }],
        usage,
    };
    assert_eq!(l.finish_chat(some, 5).message.content, "a");
}

#[test]
fn listings_become_model_infos() {
    let o = OllamaClient::new("b".to_string());
    let tags = vec![
        OllamaModel { name: "codellama:13b-instruct-q4_0".to_string(), size: Some(7) },
        OllamaModel { name: "phi".to_string(), size: None },
    ];
    let ms = o.list_models(&tags);
    assert_eq!(ms.len(), 2);
    assert_eq!(ms[0].id, "codellama:13b-instruct-q4_0");
    assert_eq!(ms[0].name, "codellama-13b-instruct-q4_0");
    assert_eq!(ms[0].size, Some(7));
    assert_eq!(ms[0].provider, LLMProvider::Ollama);
    assert!(matches!(ms[0].status, ModelStatus::Loaded));
    assert_eq!(ms[0].context_length, Some(4096));
    assert_eq!(ms[0].quantization, Some("q4_0".to_string()));
    assert_eq!(ms[1].name, "phi");
    let l = LMStudioClient::new("b".to_string());
    let listing = vec![LMStudioModel { id: "a/b/c.Q8_0.gguf".to_string() }];
    let ms = l.list_models(&listing);
    assert_eq!((ms[0].name.as_str(), ms[0].size, ms[0].provider), ("c", None, LLMProvider::LMStudio));
    assert_eq!(ms[0].quantization, Some("Q8_0".to_string()));
}

#[test]
fn model_lookup() {
    let o = OllamaClient::new("b".to_string());
    let tags = vec![
        OllamaModel { name: "a".to_string(), size: Some(1) },
        OllamaModel { name: "b".to_string(), size: Some(2) },
        OllamaModel { name: "b".to_string(), size: Some(3) },
    ];
    let found = find_model(o.list_models(&tags), "b").ok().unwrap();
    assert_eq!(found.size, Some(2));
    match find_model(o.list_models(&tags), "zz") {
        Err(LlmError::NotFound(m)) => assert_eq!(m, "Model zz not found"),
        _ => panic!("expected a missing model"),
    }
}

#[test]
fn upstream_error_text() {
    match upstream_error("Generation failed", "model not loaded") {
        LlmError::Upstream(m) => assert_eq!(m, "Generation failed: model not loaded"),
        _ => panic!("expected an upstream error"),
    }
}

#[test]
fn provider_names_and_messages() {
    assert_eq!(LLMProvider::Ollama.display_name(), "Ollama");
    assert_eq!(LLMProvider::LMStudio.display_name(), "LM Studio");
    assert_eq!(LLMProvider::OpenAI.display_name(), "OpenAI");
    let m = Message::user("hello");
    assert_eq!((m.role.as_str(), m.content.as_str()), ("user", "hello"));
    assert_eq!(Message::system("s").role, "system");
    assert_eq!(Message::assistant("a").role, "assistant");
}
