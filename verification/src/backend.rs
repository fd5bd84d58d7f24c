//! The model-execution capability the scheduler depends on, a mock
//! implementation with byte-value tokenization, and the fallback build of
//! the llama.cpp-backed implementation.

use crate::common::RunnerError;
use vstd::prelude::*;

verus! {

/// Parameters for loading a model.
#[derive(Debug, Clone)]
pub struct LoadParams {
    pub n_ctx: usize,
    pub n_gpu_layers: usize,
}

impl Default for LoadParams {
    fn default() -> (r: Self)
        ensures
            r.n_ctx == 0,
            r.n_gpu_layers == 0,
    {
        LoadParams { n_ctx: 0, n_gpu_layers: 0 }
    }
}

/// Opaque handle to a loaded model.
#[derive(Debug, Clone)]
pub struct ModelHandle;

impl Default for ModelHandle {
    fn default() -> (r: Self) {
        ModelHandle
    }
}

/// Per-sequence decode state handed to a forward step.
#[derive(Debug, Clone)]
pub struct SequenceState {
    pub tokens: Vec<u32>,
    pub max_new_tokens: usize,
}

/// Opaque snapshot of backend KV usage.
#[derive(Debug, Clone)]
pub struct KvStats;

impl Default for KvStats {
    fn default() -> (r: Self) {
        KvStats
    }
}

/// Name for what `String::from_utf8_lossy` returns on a byte sequence.
pub uninterp spec fn lossy_decode(bytes: Seq<u8>) -> Seq<char>;

/// Relies on std's `String::from_utf8_lossy`: the decoded text is a function
/// of the bytes alone, and valid UTF-8 input decodes to the text whose
/// encoding is exactly that input.
#[verifier::external_body]
fn utf8_lossy(bytes: &[u8]) -> (r: String)
    ensures
        r@ == lossy_decode(bytes@),
        vstd::utf8::valid_utf8(bytes@) ==> vstd::utf8::encode_utf8(r@) == bytes@,
{
    String::from_utf8_lossy(bytes).into_owned()
}

/// Byte-value tokenization: each byte of the UTF-8 encoding becomes one
/// token id.
pub open spec fn spec_byte_tokens(text: Seq<char>) -> Seq<u32> {
    vstd::utf8::encode_utf8(text).map(|i: int, b: u8| b as u32)
}

/// The low byte of each token id, the inverse of byte-value tokenization
/// for token ids under 256.
pub open spec fn spec_token_bytes(tokens: Seq<u32>) -> Seq<u8> {
    tokens.map(|i: int, t: u32| (t % 256) as u8)
}

/// The text byte-value detokenization yields: the tokens' low bytes decoded
/// as UTF-8 when they form a valid encoding, and decoded lossily otherwise.
pub open spec fn spec_byte_text(tokens: Seq<u32>) -> Seq<char> {
    let bytes = spec_token_bytes(tokens);
    if vstd::utf8::valid_utf8(bytes) {
        vstd::utf8::decode_utf8(bytes)
    } else {
        lossy_decode(bytes)
    }
}

/// Byte-value detokenization inverts byte-value tokenization: decoding the
/// tokens of any text yields exactly that text.
pub proof fn lemma_byte_tokens_roundtrip(text: Seq<char>)
    ensures
        spec_byte_text(spec_byte_tokens(text)) == text,
{
    let bytes = vstd::utf8::encode_utf8(text);
    assert forall|i: int| 0 <= i < bytes.len() implies spec_token_bytes(spec_byte_tokens(text))[i]
        == bytes[i] by {
    }
    assert(spec_token_bytes(spec_byte_tokens(text)) =~= bytes);
    vstd::utf8::encode_utf8_valid_utf8(text);
    vstd::utf8::encode_utf8_decode_utf8(text);
}

/// The model-execution capability set: any implementation is substitutable,
/// and the per-implementation spec functions say what its tokenizer does.
pub trait InferenceBackend: Sized + Send + Sync {
    /// The token sequence this backend assigns to a text.
    spec fn spec_tokenize(&self, text: Seq<char>) -> Seq<u32>;

    /// The text this backend decodes a token sequence to.
    spec fn spec_detokenize(&self, tokens: Seq<u32>) -> Seq<char>;

    /// Whether tokenize and detokenize always succeed on this backend.
    spec fn spec_infallible(&self) -> bool;

    /// The outcome of loading a model at a path with given parameters.
    spec fn spec_load_model(&self, path: Seq<char>, params: LoadParams) -> core::result::Result<
        ModelHandle,
        RunnerError,
    >;

    /// Validate and load a model; fails with a diagnostic when the model is
    /// absent or incompatible.
    fn load_model(&self, path: &str, params: LoadParams) -> (r: core::result::Result<
        ModelHandle,
        RunnerError,
    >)
        ensures
            r == self.spec_load_model(path@, params),
    ;

    /// Turn text into an ordered sequence of token ids.
    fn tokenize(&self, text: &str) -> (r: core::result::Result<Vec<u32>, RunnerError>)
        ensures
            r matches Ok(v) ==> v@ == self.spec_tokenize(text@),
            self.spec_infallible() ==> r is Ok,
    ;

    /// Turn token ids back into text; lossy decoding is permitted.
    fn detokenize(&self, tokens: &[u32]) -> (r: core::result::Result<String, RunnerError>)
        ensures
            r matches Ok(s) ==> s@ == self.spec_detokenize(tokens@),
            self.spec_infallible() ==> r is Ok,
    ;

    /// An opaque snapshot of KV usage.
    fn kv_usage(&self) -> KvStats;
}

/// Collect each byte of a text's UTF-8 encoding as one token id.
fn byte_tokenize(text: &str) -> (r: Vec<u32>)
    ensures
        r@ == spec_byte_tokens(text@),
{
    let bytes: &[u8] = text.as_bytes();
    let mut out: Vec<u32> = Vec::new();
    let mut i: usize = 0;
    while i < bytes.len()
        invariant
            i <= bytes.len(),
            out@.len() == i,
            forall|j: int| 0 <= j < i ==> out@[j] == bytes@[j] as u32,
        decreases bytes.len() - i,
    {
        out.push(bytes[i] as u32);
        i = i + 1;
    }
    proof {
        assert(out@ =~= spec_byte_tokens(text@));
    }
    out
}

/// Map token ids to their low bytes and decode the result, exactly for a
/// valid UTF-8 encoding and lossily otherwise.
fn byte_detokenize(tokens: &[u32]) -> (r: String)
    ensures
        r@ == spec_byte_text(tokens@),
{
    let mut bytes: Vec<u8> = Vec::new();
    let mut i: usize = 0;
    while i < tokens.len()
        invariant
            i <= tokens.len(),
            bytes@.len() == i,
            forall|j: int| 0 <= j < i ==> bytes@[j] == (tokens@[j] % 256) as u8,
        decreases tokens.len() - i,
    {
        bytes.push((tokens[i] % 256) as u8);
        i = i + 1;
    }
    proof {
        assert(bytes@ =~= spec_token_bytes(tokens@));
    }
    let r = utf8_lossy(bytes.as_slice());
    proof {
        if vstd::utf8::valid_utf8(bytes@) {
            vstd::utf8::encode_utf8_decode_utf8(r@);
        }
    }
    r
}

/// A backend that tokenizes by byte value; used by tests and the
/// no-model path.
#[derive(Debug, Clone)]
pub struct MockBackend;

impl MockBackend {
    pub fn new() -> (r: Self) {
        MockBackend
    }
}

impl InferenceBackend for MockBackend {
    open spec fn spec_tokenize(&self, text: Seq<char>) -> Seq<u32> {
        spec_byte_tokens(text)
    }

    open spec fn spec_detokenize(&self, tokens: Seq<u32>) -> Seq<char> {
        spec_byte_text(tokens)
    }

    open spec fn spec_infallible(&self) -> bool {
        true
    }

    open spec fn spec_load_model(&self, path: Seq<char>, params: LoadParams) -> core::result::Result<
        ModelHandle,
        RunnerError,
    > {
        Ok(ModelHandle)
    }

    fn load_model(&self, path: &str, params: LoadParams) -> core::result::Result<
        ModelHandle,
        RunnerError,
    > {
        Ok(ModelHandle)
    }

    fn tokenize(&self, text: &str) -> core::result::Result<Vec<u32>, RunnerError> {
        Ok(byte_tokenize(text))
    }

    fn detokenize(&self, tokens: &[u32]) -> core::result::Result<String, RunnerError> {
        Ok(byte_detokenize(tokens))
    }

    fn kv_usage(&self) -> KvStats {
        KvStats
    }
}

/// State the llama.cpp-backed implementation would track; unused until the
/// native library is wired.
#[allow(dead_code)]
struct LlamaState {
    model_loaded: bool,
    model_path: Option<String>,
}

/// The llama.cpp-backed implementation. Without the native library wired,
/// loading reports `NotImplemented` and the tokenizer falls back to byte
/// values, like the mock.
pub struct LlamaCppBackend {
    state: LlamaState,
}

impl LlamaCppBackend {
    pub fn new() -> (r: Self) {
        LlamaCppBackend { state: LlamaState { model_loaded: false, model_path: None } }
    }
}

impl InferenceBackend for LlamaCppBackend {
    open spec fn spec_tokenize(&self, text: Seq<char>) -> Seq<u32> {
        spec_byte_tokens(text)
    }

    open spec fn spec_detokenize(&self, tokens: Seq<u32>) -> Seq<char> {
        spec_byte_text(tokens)
    }

    open spec fn spec_infallible(&self) -> bool {
        true
    }

    open spec fn spec_load_model(&self, path: Seq<char>, params: LoadParams) -> core::result::Result<
        ModelHandle,
        RunnerError,
    > {
        Err(RunnerError::NotImplemented)
    }

    fn load_model(&self, path: &str, params: LoadParams) -> core::result::Result<
        ModelHandle,
        RunnerError,
    > {
        Err(RunnerError::NotImplemented)
    }

    fn tokenize(&self, text: &str) -> core::result::Result<Vec<u32>, RunnerError> {
        Ok(byte_tokenize(text))
    }

    fn detokenize(&self, tokens: &[u32]) -> core::result::Result<String, RunnerError> {
        Ok(byte_detokenize(tokens))
    }

    fn kv_usage(&self) -> KvStats {
        KvStats
    }
}

} // verus!
