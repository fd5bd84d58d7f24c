//! Scheduling decisions: admission against the paged KV manager, per-tick
//! batch draining, and request completion with reply delivery and
//! reservation release. The asynchronous plumbing around these decisions
//! (queue, timer, task spawning) lives outside the library.

use crate::kv::{
    note_step, spec_hash_prefix, spec_tokens_to_blocks, lemma_tokens_to_blocks_monotone,
    PagedKvManager, PrefixCache, Reservation,
};
use vstd::prelude::*;
use vstd::string::StringExecFns;

verus! {

/// Upper bound on the number of requests dispatched in one tick.
pub const BATCH_MAX: usize = 32;

/// Bound of the request queue; senders block when it is full.
pub const QUEUE_CAP: usize = 1024;

/// Interval of the batching tick, in milliseconds.
pub const TICK_MS: u64 = 2;

/// Tokens subtracted from the estimate when the prompt prefix is common,
/// modeling amortized prompt reuse.
pub const PREFIX_DISCOUNT_TOKENS: usize = 32;

/// Heuristic bytes-per-token ratio for English-like text.
pub const EST_BYTES_PER_TOKEN: usize = 4;

/// The reply a caller receives when admission is denied for want of KV
/// capacity.
pub fn server_busy_reply() -> (r: String)
    ensures
        r@ == "SERVER_BUSY: insufficient KV capacity"@,
{
    String::from_str("SERVER_BUSY: insufficient KV capacity")
}

#[verifier::external_type_specification]
#[verifier::external_body]
#[verifier::reject_recursive_types(T)]
pub struct ExOneshotSender<T>(tokio::sync::oneshot::Sender<T>);

/// Relies on tokio's `oneshot::Sender::send`: it consumes the sender, so a
/// request's reply channel resolves at most once; delivery fails when the
/// receiver is already gone, which completion tolerates.
#[verifier::external_body]
fn send_reply(tx: tokio::sync::oneshot::Sender<String>, text: String) -> (r: bool) {
    tx.send(text).is_ok()
}

/// A request owned by the scheduler from admission until completion.
pub struct Request {
    pub prompt: String,
    pub respond: tokio::sync::oneshot::Sender<String>,
    pub max_tokens: usize,
    pub reservation: Option<Reservation>,
}

/// The blocks held by an optional reservation.
pub open spec fn spec_reservation_blocks(r: Option<Reservation>) -> nat {
    match r {
        Some(res) => res.spec_blocks(),
        None => 0,
    }
}

/// The byte length of a prompt's UTF-8 encoding.
pub open spec fn spec_prompt_bytes(prompt: Seq<char>) -> nat {
    vstd::utf8::encode_utf8(prompt).len()
}

/// Estimated prompt token count: a quarter of the byte length, and at
/// least one.
pub open spec fn spec_est_prompt_tokens(prompt_bytes: nat) -> nat {
    let e = prompt_bytes / (EST_BYTES_PER_TOKEN as nat);
    if e < 1 {
        1
    } else {
        e
    }
}

/// Predicted token total: estimated prompt tokens plus requested output
/// tokens, discounted (saturating at zero) when the prefix is common.
pub open spec fn spec_total_tokens(prompt_bytes: nat, max_tokens: nat, common: bool) -> nat {
    let t = spec_est_prompt_tokens(prompt_bytes) + max_tokens;
    if common {
        if t >= PREFIX_DISCOUNT_TOKENS {
            (t - PREFIX_DISCOUNT_TOKENS) as nat
        } else {
            0
        }
    } else {
        t
    }
}

/// The block count admission will try to reserve for a request.
pub open spec fn spec_predicted_blocks(prompt_bytes: nat, max_tokens: nat, common: bool) -> nat {
    spec_tokens_to_blocks(spec_total_tokens(prompt_bytes, max_tokens, common))
}

/// A common prefix never increases the predicted block count.
pub proof fn lemma_discount_monotone(prompt_bytes: nat, max_tokens: nat)
    ensures
        spec_predicted_blocks(prompt_bytes, max_tokens, true) <= spec_predicted_blocks(
            prompt_bytes,
            max_tokens,
            false,
        ),
{
    lemma_tokens_to_blocks_monotone(
        spec_total_tokens(prompt_bytes, max_tokens, true),
        spec_total_tokens(prompt_bytes, max_tokens, false),
    );
}

/// The admission step of enqueue: estimate the request's block need from
/// the prompt length and requested output, record the prompt's prefix
/// fingerprint, discount a prefix seen before, and claim the predicted
/// blocks — succeeding if and only if they fit under the capacity ceiling.
pub fn admission(
    kv: &mut PagedKvManager,
    prefix: &mut PrefixCache,
    prompt: &str,
    max_tokens: usize,
) -> (r: Option<Reservation>)
    requires
        old(kv).wf(),
        spec_est_prompt_tokens(spec_prompt_bytes(prompt@)) + max_tokens <= usize::MAX,
    ensures
        ({
            let h = spec_hash_prefix(prompt@);
            let common = old(prefix).spec_count(h) >= 1;
            let blocks = spec_predicted_blocks(
                spec_prompt_bytes(prompt@),
                max_tokens as nat,
                common,
            );
            &&& final(prefix).spec_counts() == note_step(old(prefix).spec_counts(), h)
            &&& final(prefix).spec_token_memo() == old(prefix).spec_token_memo()
            &&& final(kv).wf()
            &&& final(kv).same_config(*old(kv))
            &&& (r is Some <==> old(kv).spec_used() + blocks <= old(kv).spec_capacity())
            &&& (r matches Some(res) ==> res.spec_blocks() == blocks && final(kv).spec_used()
                == old(kv).spec_used() + blocks)
            &&& (r is None ==> final(kv).spec_used() == old(kv).spec_used())
        }),
{
    let prompt_bytes: usize = prompt.as_bytes().len();
    let q: usize = prompt_bytes / EST_BYTES_PER_TOKEN;
    let est: usize = if q < 1 {
        1
    } else {
        q
    };
    let h: u64 = prefix.hash_prefix(prompt);
    prefix.note(h);
    let mut total: usize = est + max_tokens;
    if prefix.is_common(h) {
        total = total.saturating_sub(PREFIX_DISCOUNT_TOKENS);
    }
    let blocks: usize = kv.tokens_to_blocks(total);
    kv.try_reserve(blocks)
}

/// Drain the next batch from the pending requests: the first
/// `min(len, BATCH_MAX)` of them, in arrival order; the rest wait for a
/// later tick. No tick dispatches more than `BATCH_MAX` requests.
pub fn take_batch(pending: &mut Vec<Request>) -> (batch: Vec<Request>)
    ensures
        batch@.len() <= BATCH_MAX,
        batch@.len() == if old(pending)@.len() < BATCH_MAX {
            old(pending)@.len()
        } else {
            BATCH_MAX as nat
        },
        batch@ == old(pending)@.take(batch@.len() as int),
        final(pending)@ == old(pending)@.skip(batch@.len() as int),
{
    let ghost orig = pending@;
    let k: usize = if pending.len() > BATCH_MAX {
        BATCH_MAX
    } else {
        pending.len()
    };
    let mut batch: Vec<Request> = Vec::new();
    while batch.len() < k
        invariant
            k <= orig.len(),
            batch@.len() <= k,
            batch@ =~= orig.take(batch@.len() as int),
            pending@ =~= orig.skip(batch@.len() as int),
        decreases k - batch@.len(),
    {
        let ghost n = batch@.len() as int;
        let next = pending.remove(0);
        proof {
            assert(orig.skip(n)[0] == orig[n]);
            assert(orig.skip(n).remove(0) =~= orig.skip(n + 1));
            assert(orig.take(n).push(orig[n]) =~= orig.take(n + 1));
        }
        batch.push(next);
    }
    batch
}

/// Finish a dispatched request: deliver the generated text as the single
/// resolution of its reply channel — the sender is consumed, so no second
/// resolution is possible — then give the reservation's blocks back to
/// the pool exactly once.
pub fn complete(req: Request, text: String, kv: &mut PagedKvManager)
    requires
        old(kv).wf(),
        (req.reservation matches Some(res) ==> res.spec_blocks() <= old(kv).spec_used()),
    ensures
        final(kv).wf(),
        final(kv).spec_capacity() == old(kv).spec_capacity(),
        final(kv).spec_spill() == old(kv).spec_spill(),
        final(kv).spec_used() == old(kv).spec_used() - spec_reservation_blocks(req.reservation),
{
    let Request { prompt: _, respond, max_tokens: _, reservation } = req;
    let _delivered = send_reply(respond, text);
    match reservation {
        Some(res) => kv.release(res),
        None => {},
    }
}

/// The scheduler namespace; construction carries no state of its own.
pub struct Scheduler;

impl Scheduler {
    pub fn new() -> (r: Self) {
        Scheduler
    }
}

} // verus!
