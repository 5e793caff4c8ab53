use llm_router::router::{route_lowered, Fallback, LLMRouter, Route, Stage, Step};
use llm_router::types::{LLMProvider, LlmError, ModelInfo, ModelStatus};

fn model(id: &str, provider: LLMProvider) -> ModelInfo {
    ModelInfo {
        id: id.to_string(),
        name: id.to_string(),
        size: None,
        provider,
        status: ModelStatus::Loaded,
        performance: None,
        context_length: Some(4096),
        quantization: None,
    }
}

fn ids(ms: &[ModelInfo]) -> Vec<String> {
    ms.iter().map(|m| m.id.clone()).collect()
}

const OLLAMA_FIRST: Route = Route { primary: LLMProvider::Ollama, secondary: LLMProvider::LMStudio };
const LMSTUDIO_FIRST: Route = Route { primary: LLMProvider::LMStudio, secondary: LLMProvider::Ollama };

#[test]
fn hints_resolve_case_insensitively() {
    let r = LLMRouter::new();
    assert_eq!(r.route("ollama"), OLLAMA_FIRST);
    assert_eq!(r.route("OLLAMA"), OLLAMA_FIRST);
    assert_eq!(r.route("LMStudio"), LMSTUDIO_FIRST);
    assert_eq!(r.route("LM Studio"), LMSTUDIO_FIRST);
    assert_eq!(route_lowered("lm studio"), LMSTUDIO_FIRST);
    assert_eq!(route_lowered("LMSTUDIO"), OLLAMA_FIRST);
}

#[test]
fn unknown_hint_routes_to_default_every_time() {
    let r = LLMRouter::new();
    for _ in 0..3 {
        assert_eq!(r.route("openai"), OLLAMA_FIRST);
        assert_eq!(r.route("lm-studio"), OLLAMA_FIRST);
        assert_eq!(r.route(""), OLLAMA_FIRST);
    }
}

#[test]
fn fallback_returns_secondary_success() {
    let r = LLMRouter::new();
    let (mut f, first) = Fallback::start(r.route("ollama"));
    assert_eq!(first, LLMProvider::Ollama);
    match f.on_outcome::<u32>(Err(LlmError::Transport("refused".to_string()))) {
        Step::Call(p) => assert_eq!(p, LLMProvider::LMStudio),
        Step::Done(_) => panic!("expected a second call"),
    }
    assert_eq!(f.stage, Stage::Secondary);
    match f.on_outcome::<u32>(Ok(7)) {
        Step::Done(Ok(v)) => assert_eq!(v, 7),
        _ => panic!("expected the secondary's response"),
    }
    assert_eq!(f.stage, Stage::Finished);
}

#[test]
fn fallback_reports_secondary_error() {
    let (mut f, first) = Fallback::start(LMSTUDIO_FIRST);
    assert_eq!(first, LLMProvider::LMStudio);
    assert!(matches!(f.on_outcome::<u32>(Err(LlmError::Upstream("a".to_string()))), Step::Call(LLMProvider::Ollama)));
    match f.on_outcome::<u32>(Err(LlmError::Protocol("b".to_string()))) {
        Step::Done(Err(LlmError::Protocol(m))) => assert_eq!(m, "b"),
        _ => panic!("expected the secondary's error"),
    }
}

#[test]
fn fallback_primary_success_is_final() {
    let (mut f, _) = Fallback::start(OLLAMA_FIRST);
    assert!(matches!(f.on_outcome::<u32>(Ok(1)), Step::Done(Ok(1))));
    assert_eq!(f.stage, Stage::Finished);
}

#[test]
fn list_all_with_one_unreachable() {
    let r = LLMRouter::new();
    let lm = vec![model("z", LLMProvider::LMStudio), model("a", LLMProvider::LMStudio)];
    let all = r.list_all_models(Err(LlmError::Transport("down".to_string())), Ok(lm));
    assert_eq!(ids(&all), vec!["z", "a"]);
    let ol = vec![model("q", LLMProvider::Ollama), model("b", LLMProvider::Ollama)];
    let all = r.list_all_models(Ok(ol), Err(LlmError::Upstream("500".to_string())));
    assert_eq!(ids(&all), vec!["q", "b"]);
}

#[test]
fn list_all_primary_first() {
    let r = LLMRouter::new();
    let all = r.list_all_models(Ok(vec![model("o", LLMProvider::Ollama)]), Ok(vec![model("l", LLMProvider::LMStudio)]));
    assert_eq!(ids(&all), vec!["o", "l"]);
    let none = r.list_all_models(Err(LlmError::Transport("x".to_string())), Err(LlmError::Transport("y".to_string())));
    assert!(none.is_empty());
}

#[test]
fn discovery_with_both_unreachable() {
    let r = LLMRouter::new();
    let s = r.detect_servers(false, None, false, None);
    assert!(!s.ollama.connected && !s.lmstudio.connected);
    assert!(s.ollama.models_loaded.is_empty() && s.lmstudio.models_loaded.is_empty());
    assert_eq!(s.ollama.error.as_deref(), Some("Ollama server not running. Start with: ollama serve"));
    assert_eq!(
        s.lmstudio.error.as_deref(),
        Some("LM Studio server not running. Start LM Studio and enable server mode.")
    );
}

#[test]
fn discovery_with_listing_failure_after_health() {
    let r = LLMRouter::new();
    let s = r.detect_servers(true, Some(vec![model("m1", LLMProvider::Ollama), model("m2", LLMProvider::Ollama)]), true, None);
    assert!(s.ollama.connected && s.lmstudio.connected);
    assert_eq!(s.ollama.models_loaded, vec!["m1".to_string(), "m2".to_string()]);
    assert!(s.lmstudio.models_loaded.is_empty());
    assert_eq!(s.ollama.error, None);
    assert_eq!(s.lmstudio.error, None);
    assert_eq!(s.ollama.version, None);
}

#[test]
fn router_default_addresses() {
    let r = LLMRouter::new();
    assert_eq!(r.ollama_client.base_url, "http://localhost:11434");
    assert_eq!(r.lmstudio_client.base_url, "http://localhost:1234");
}
