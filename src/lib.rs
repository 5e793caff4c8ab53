//! A uniform layer over local LLM inference servers: the shared data model,
//! the two protocol adapters (request shaping, model naming and response
//! normalisation) and the router's discovery, aggregation and fallback rules.
//! Network transport lives outside this crate; everything it decides is here.
use vstd::prelude::*;

pub mod hardware;
pub mod lmstudio;
pub mod ollama;
pub mod protocol;
pub mod router;
pub mod text;
pub mod types;

verus! {

} // verus!
