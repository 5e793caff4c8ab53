use vstd::prelude::*;
use crate::lmstudio::LMStudioClient;
use crate::ollama::OllamaClient;
use crate::text::{opt_view, views};
use crate::types::{LLMProvider, LlmError, ModelInfo, ServerConnectionStatus, ServerStatus};

verus! {

/// What `str::to_lowercase` makes of a string.
pub uninterp spec fn lower_of(s: Seq<char>) -> Seq<char>;

/// Relies on `str::to_lowercase`: its result depends on the characters alone.
#[verifier::external_body]
fn lowercase(s: &str) -> (r: String)
    ensures
        r@ == lower_of(s@),
{
    s.to_lowercase()
}

/// The adapter tried first and the one tried if it fails.
#[derive(Clone, Copy, Debug, PartialEq, Eq, Structural)]
pub struct Route {
    pub primary: LLMProvider,
    pub secondary: LLMProvider,
}

/// The route taken for any hint that names no known provider: the first
/// declared provider, then the other.
pub open spec fn default_route() -> Route {
    Route { primary: LLMProvider::Ollama, secondary: LLMProvider::LMStudio }
}

/// Whether a lowercased hint is one of the accepted provider names.
pub open spec fn is_alias(lowered: Seq<char>) -> bool {
    lowered == "ollama"@ || lowered == "lmstudio"@ || lowered == "lm studio"@
}

/// The route for a lowercased provider hint.
pub open spec fn route_of(lowered: Seq<char>) -> Route {
    if lowered == "lmstudio"@ || lowered == "lm studio"@ {
        Route { primary: LLMProvider::LMStudio, secondary: LLMProvider::Ollama }
    } else {
        default_route()
    }
}

/// Resolves an already lowercased provider hint.
pub fn route_lowered(lowered: &str) -> (r: Route)
    ensures
        r == route_of(lowered@),
{
    let s = String::from_str(lowered);
    if s == String::from_str("lmstudio") || s == String::from_str("lm studio") {
        Route { primary: LLMProvider::LMStudio, secondary: LLMProvider::Ollama }
    } else {
        Route { primary: LLMProvider::Ollama, secondary: LLMProvider::LMStudio }
    }
}

/// An unrecognised hint always routes to the default primary: the route is a
/// function of the hint alone, so repeated calls agree.
pub proof fn lemma_unknown_hint_routes_to_default(hint: Seq<char>)
    requires
        !is_alias(lower_of(hint)),
    ensures
        route_of(lower_of(hint)) == default_route(),
        route_of(lower_of(hint)).primary == LLMProvider::Ollama,
{
}

/// Where a fallback exchange stands.
#[derive(Clone, Copy, Debug, PartialEq, Eq, Structural)]
pub enum Stage {
    Primary,
    Secondary,
    Finished,
}

/// A generate or chat exchange with exactly one fallback hop.
#[derive(Clone, Copy, Debug, PartialEq, Eq, Structural)]
pub struct Fallback {
    pub route: Route,
    pub stage: Stage,
}

/// What to do next: call an adapter, or hand back the result.
pub enum Step<T> {
    Call(LLMProvider),
    Done(Result<T, LlmError>),
}

/// The next state and step after an adapter's outcome. A primary success is
/// the result; a primary failure of any kind sends the same request to the
/// secondary; the secondary's outcome, success or error, is the result.
pub open spec fn next_of<T>(f: Fallback, outcome: Result<T, LlmError>) -> (Fallback, Step<T>) {
    match f.stage {
        Stage::Primary => match outcome {
            Ok(_) => (Fallback { stage: Stage::Finished, ..f }, Step::Done(outcome)),
            Err(_) => (Fallback { stage: Stage::Secondary, ..f }, Step::Call(f.route.secondary)),
        },
        _ => (Fallback { stage: Stage::Finished, ..f }, Step::Done(outcome)),
    }
}

impl Fallback {
    /// Begins an exchange: the primary adapter is called first.
    pub fn start(route: Route) -> (r: (Fallback, LLMProvider))
        ensures
            r.0 == (Fallback { route, stage: Stage::Primary }),
            r.1 == route.primary,
    {
        (Fallback { route, stage: Stage::Primary }, route.primary)
    }

    /// Takes the outcome of the adapter last called.
    pub fn on_outcome<T>(&mut self, outcome: Result<T, LlmError>) -> (r: Step<T>)
        ensures
            (*final(self), r) == next_of(*old(self), outcome),
    {
        match self.stage {
            Stage::Primary => match outcome {
                Ok(v) => {
                    self.stage = Stage::Finished;
                    Step::Done(Ok(v))
                },
                Err(e) => {
                    self.stage = Stage::Secondary;
                    Step::Call(self.route.secondary)
                },
            },
            _ => {
                self.stage = Stage::Finished;
                Step::Done(outcome)
            },
        }
    }
}

/// When the primary fails and the secondary succeeds, the secondary's
/// response is the result; when both fail, the secondary's error is.
/// Either way the exchange ends after the second call.
pub proof fn lemma_fallback_surfaces_secondary<T>(route: Route, first: LlmError, second: Result<T, LlmError>)
    ensures
        ({
            let (s1, step1) = next_of(Fallback { route, stage: Stage::Primary }, Err::<T, LlmError>(first));
            &&& step1 == Step::<T>::Call(route.secondary)
            &&& s1.stage == Stage::Secondary
            &&& next_of(s1, second).1 == Step::Done(second)
            &&& next_of(s1, second).0.stage == Stage::Finished
        }),
{
}

/// A primary success is returned as it is, and nothing else is called.
pub proof fn lemma_primary_success_is_final<T>(route: Route, v: T)
    ensures
        next_of(Fallback { route, stage: Stage::Primary }, Ok::<T, LlmError>(v)).1 == Step::Done(
            Ok::<T, LlmError>(v),
        ),
{
}

/// The models an adapter contributed: its listing, or nothing if it failed.
pub open spec fn listed(outcome: Result<Vec<ModelInfo>, LlmError>) -> Seq<ModelInfo> {
    match outcome {
        Ok(v) => v@,
        Err(_) => Seq::empty(),
    }
}

/// With one adapter listing and the other failing, the aggregate is exactly
/// the listing, in its order, whichever of the two failed.
pub proof fn lemma_one_reachable(models: Vec<ModelInfo>, e: LlmError)
    ensures
        listed(Ok(models)) + listed(Err(e)) == models@,
        listed(Err(e)) + listed(Ok(models)) == models@,
{
    assert(listed(Ok(models)) + listed(Err(e)) =~= models@);
    assert(listed(Err(e)) + listed(Ok(models)) =~= models@);
}

/// The ids of a sequence of models, in order.
pub open spec fn ids(ms: Seq<ModelInfo>) -> Seq<Seq<char>> {
    ms.map_values(|m: ModelInfo| m.id@)
}

/// The ids of the listed models, in order.
pub fn model_ids(models: &Vec<ModelInfo>) -> (r: Vec<String>)
    ensures
        views(r@) == ids(models@),
{
    let mut out: Vec<String> = Vec::new();
    let mut i: usize = 0;
    while i < models.len()
        invariant
            i <= models@.len(),
            views(out@) =~= ids(models@.take(i as int)),
        decreases models.len() - i,
    {
        let ghost before = out@;
        out.push(models[i].id.clone());
        assert(views(out@) =~= views(before).push(models@[i as int].id@));
        assert(models@.take(i + 1) =~= models@.take(i as int).push(models@[i as int]));
        assert(ids(models@.take(i + 1)) =~= ids(models@.take(i as int)).push(models@[i as int].id@));
        i = i + 1;
    }
    assert(models@.take(i as int) =~= models@);
    out
}

pub open spec fn ollama_down() -> Seq<char> {
    "Ollama server not running. Start with: ollama serve"@
}

pub open spec fn lmstudio_down() -> Seq<char> {
    "LM Studio server not running. Start LM Studio and enable server mode."@
}

/// Whether `s` reports a server whose health probe said `healthy` and whose
/// listing, taken only when healthy, gave `listing` (`None` when it failed).
pub open spec fn reports(s: ServerConnectionStatus, healthy: bool, listing: Option<Vec<ModelInfo>>, down: Seq<char>) -> bool {
    &&& s.connected == healthy
    &&& s.version is None
    &&& views(s.models_loaded@) == (if healthy && listing is Some {
        ids(listing->0@)
    } else {
        Seq::<Seq<char>>::empty()
    })
    &&& opt_view(s.error) == (if healthy { None } else { Some(down) })
}

fn connection_status(healthy: bool, listing: Option<Vec<ModelInfo>>, down: &str) -> (r: ServerConnectionStatus)
    ensures
        reports(r, healthy, listing, down@),
{
    let models_loaded = if healthy {
        match &listing {
            Some(ms) => model_ids(ms),
            None => Vec::new(),
        }
    } else {
        Vec::new()
    };
    assert(views(Seq::<String>::empty()) =~= Seq::<Seq<char>>::empty());
    ServerConnectionStatus {
        connected: healthy,
        version: None,
        models_loaded,
        error: if healthy {
            None
        } else {
            Some(String::from_str(down))
        },
    }
}

/// One adapter per known provider, at fixed local addresses.
pub struct LLMRouter {
    pub ollama_client: OllamaClient,
    pub lmstudio_client: LMStudioClient,
}

impl LLMRouter {
    pub fn new() -> (r: Self)
        ensures
            r.ollama_client.base_url@ == "http://localhost:11434"@,
            r.lmstudio_client.base_url@ == "http://localhost:1234"@,
    {
        LLMRouter {
            ollama_client: OllamaClient::new(String::from_str("http://localhost:11434")),
            lmstudio_client: LMStudioClient::new(String::from_str("http://localhost:1234")),
        }
    }

    /// Resolves a provider hint, case-insensitively: `ollama` routes to
    /// Ollama first, `lmstudio` or `lm studio` to LM Studio first, anything
    /// else to the default route.
    pub fn route(&self, provider: &str) -> (r: Route)
        ensures
            r == route_of(lower_of(provider@)),
    {
        let lowered = lowercase(provider);
        route_lowered(lowered.as_str())
    }

    /// Combines both adapters' listings: every successful listing, primary
    /// backend first; a failed one contributes nothing.
    pub fn list_all_models(
        &self,
        ollama: Result<Vec<ModelInfo>, LlmError>,
        lmstudio: Result<Vec<ModelInfo>, LlmError>,
    ) -> (r: Vec<ModelInfo>)
        ensures
            r@ == listed(ollama) + listed(lmstudio),
    {
        let mut all = match ollama {
            Ok(v) => v,
            Err(_) => Vec::new(),
        };
        match lmstudio {
            Ok(v) => {
                let mut v = v;
                all.append(&mut v);
            },
            Err(_) => {},
        }
        assert(all@ =~= listed(ollama) + listed(lmstudio));
        all
    }

    /// Assembles discovery from each server's health verdict and, for a
    /// healthy one, its listing (`None` when the listing failed).
    pub fn detect_servers(
        &self,
        ollama_healthy: bool,
        ollama_listing: Option<Vec<ModelInfo>>,
        lmstudio_healthy: bool,
        lmstudio_listing: Option<Vec<ModelInfo>>,
    ) -> (r: ServerStatus)
        ensures
            reports(r.ollama, ollama_healthy, ollama_listing, ollama_down()),
            reports(r.lmstudio, lmstudio_healthy, lmstudio_listing, lmstudio_down()),
    {
        ServerStatus {
            ollama: connection_status(
                ollama_healthy,
                ollama_listing,
                "Ollama server not running. Start with: ollama serve",
            ),
            lmstudio: connection_status(
                lmstudio_healthy,
                lmstudio_listing,
                "LM Studio server not running. Start LM Studio and enable server mode.",
            ),
        }
    }
}

/// With both servers unreachable, discovery reports each as disconnected,
/// with no models and a non-empty diagnostic.
pub proof fn lemma_all_unreachable(s: ServerStatus, ol: Option<Vec<ModelInfo>>, ll: Option<Vec<ModelInfo>>)
    requires
        reports(s.ollama, false, ol, ollama_down()),
        reports(s.lmstudio, false, ll, lmstudio_down()),
    ensures
        !s.ollama.connected && !s.lmstudio.connected,
        s.ollama.models_loaded@.len() == 0 && s.lmstudio.models_loaded@.len() == 0,
        s.ollama.error matches Some(m) && m@.len() > 0,
        s.lmstudio.error matches Some(m) && m@.len() > 0,
{
    reveal_strlit("Ollama server not running. Start with: ollama serve");
    reveal_strlit("LM Studio server not running. Start LM Studio and enable server mode.");
    assert(views(s.ollama.models_loaded@).len() == 0);
    assert(views(s.lmstudio.models_loaded@).len() == 0);
}

} // verus!
