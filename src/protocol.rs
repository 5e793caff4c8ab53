use vstd::prelude::*;
use crate::types::{LlmError, ModelInfo};

verus! {

/// Whether an HTTP status code reports success (2xx).
pub open spec fn is_success(code: u16) -> bool {
    200 <= code <= 299
}

pub fn status_is_success(code: u16) -> (r: bool)
    ensures
        r == is_success(code),
{
    200 <= code && code <= 299
}

/// The verdict of a health probe. `probe` is the status code of the answer,
/// or `None` when no answer came (refused, unresolved, timed out). Every
/// outcome of the probe, a failed transport included, yields a plain
/// `bool`: reachable and answering with success, or not.
pub fn health_check(probe: Option<u16>) -> (r: bool)
    ensures
        r == (probe matches Some(code) && is_success(code)),
{
    match probe {
        Some(code) => status_is_success(code),
        None => false,
    }
}

/// The error for a non-success answer: `context: detail`, where `detail` is
/// the server's error text or status line.
pub fn upstream_error(context: &str, detail: &str) -> (r: LlmError)
    ensures
        r matches LlmError::Upstream(m) && m@ == context@ + ": "@ + detail@,
{
    let mut m = String::from_str(context);
    m.append(": ");
    m.append(detail);
    LlmError::Upstream(m)
}

/// The position of the first model whose id is `model_id`.
fn position_of(models: &Vec<ModelInfo>, model_id: &str) -> (r: Option<usize>)
    ensures
        r matches Some(i) ==> i < models@.len() && models@[i as int].id@ == model_id@ && forall|j: int|
            0 <= j < i ==> (#[trigger] models@[j]).id@ != model_id@,
        r is None ==> forall|j: int| 0 <= j < models@.len() ==> (#[trigger] models@[j]).id@ != model_id@,
{
    let wanted = String::from_str(model_id);
    let mut i: usize = 0;
    while i < models.len()
        invariant
            wanted@ == model_id@,
            i <= models@.len(),
            forall|j: int| 0 <= j < i ==> (#[trigger] models@[j]).id@ != model_id@,
        decreases models.len() - i,
    {
        if models[i].id == wanted {
            return Some(i);
        }
        i = i + 1;
    }
    None
}

/// Picks the first listed model whose id is exactly `model_id`.
pub fn find_model(models: Vec<ModelInfo>, model_id: &str) -> (r: Result<ModelInfo, LlmError>)
    ensures
        r is Ok <==> exists|i: int| 0 <= i < models@.len() && (#[trigger] models@[i]).id@ == model_id@,
        r matches Ok(m) ==> exists|i: int|
            0 <= i < models@.len() && models@[i] == m && m.id@ == model_id@ && forall|j: int|
                0 <= j < i ==> (#[trigger] models@[j]).id@ != model_id@,
        r matches Err(e) ==> e matches LlmError::NotFound(msg) && msg@ == "Model "@ + model_id@
            + " not found"@,
{
    match position_of(&models, model_id) {
        Some(i) => {
            let ghost all = models@;
            let mut list = models;
            assert(list@ == all);
            let m = list.remove(i);
            assert(all[i as int] == m);
            Ok(m)
        },
        None => {
            let mut msg = String::from_str("Model ");
            msg.append(model_id);
            msg.append(" not found");
            Err(LlmError::NotFound(msg))
        },
    }
}

} // verus!
