//! Single-shot generation driver over the backend capability.

use crate::backend::InferenceBackend;
use crate::common::RunnerError;
use vstd::prelude::*;

verus! {

/// Best-effort single-shot generation: tokenize the prompt, decode the
/// tokens back to text, and fall back to an empty token sequence or the
/// prompt itself when a backend operation fails. Never errors.
pub fn generate_once<B: InferenceBackend>(
    backend: &B,
    prompt: &str,
    _max_tokens: usize,
) -> (r: core::result::Result<String, RunnerError>)
    ensures
        r is Ok,
        r matches Ok(s) ==> s@ == backend.spec_detokenize(backend.spec_tokenize(prompt@)) || s@
            == backend.spec_detokenize(Seq::<u32>::empty()) || s@ == prompt@,
        backend.spec_infallible() ==> (r matches Ok(s) && s@ == backend.spec_detokenize(
            backend.spec_tokenize(prompt@),
        )),
{
    let tokens: Vec<u32> = match backend.tokenize(prompt) {
        Ok(v) => v,
        Err(_) => Vec::new(),
    };
    let text: String = match backend.detokenize(tokens.as_slice()) {
        Ok(s) => s,
        Err(_) => prompt.to_owned(),
    };
    Ok(text)
}

} // verus!
