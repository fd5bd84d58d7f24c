//! Core of an inference-serving runtime: paged KV-cache admission accounting,
//! prefix reuse detection, batch scheduling decisions, and a single-shot
//! generation driver over an abstract model backend.

pub mod backend;
pub mod common;
pub mod decode;
pub mod kv;
pub mod scheduler;

use vstd::prelude::*;

verus! {

/// Number of tokens one KV-cache block accounts for.
pub const TOKENS_PER_BLOCK: usize = 32;

/// Byte size of one KV-cache block; a byte budget divided by this
/// gives the block capacity.
pub const BYTES_PER_BLOCK: usize = 4096;

} // verus!
