//! Shared error and configuration types.

use vstd::prelude::*;
use vstd::string::StringExecFns;

verus! {

/// Errors the runtime surfaces from the backend boundary.
#[derive(Debug)]
pub enum RunnerError {
    /// The requested capability is not wired in this build.
    NotImplemented,
    /// A diagnostic carried up from a backend operation.
    Message(String),
}

impl RunnerError {
    /// The diagnostic text of this error.
    pub open spec fn spec_message(self) -> Seq<char> {
        match self {
            RunnerError::NotImplemented => "not implemented"@,
            RunnerError::Message(s) => s@,
        }
    }

    /// The diagnostic text of this error.
    pub fn message(&self) -> (r: String)
        ensures
            r@ == self.spec_message(),
    {
        match self {
            RunnerError::NotImplemented => String::from_str("not implemented"),
            RunnerError::Message(s) => s.clone(),
        }
    }
}

/// Startup configuration for the runtime.
#[derive(Debug, Clone)]
pub struct RunnerConfig {
    pub model_dir: String,
    pub context_size: Option<usize>,
    pub gpu_layers: Option<usize>,
    pub scheduler_tick_ms: Option<u64>,
    pub max_batch_tokens: Option<usize>,
}

impl Default for RunnerConfig {
    /// The stock configuration used when nothing overrides it.
    fn default() -> (r: Self)
        ensures
            r.model_dir@ == "models"@,
            r.context_size == Some(2048usize),
            r.gpu_layers is None,
            r.scheduler_tick_ms == Some(2u64),
            r.max_batch_tokens == Some(1024usize),
    {
        RunnerConfig {
            model_dir: String::from_str("models"),
            context_size: Some(2048),
            gpu_layers: None,
            scheduler_tick_ms: Some(2),
            max_batch_tokens: Some(1024),
        }
    }
}

} // verus!
