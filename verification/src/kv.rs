//! Paged KV-cache accounting: a bounded pool of fixed-size blocks handed out
//! as scoped reservations, plus a transition model over which conservation,
//! capacity-ceiling and admission-monotonicity laws are proved.

use core::hash::Hasher;
use std::collections::HashMap;
use std::collections::hash_map::DefaultHasher;
use vstd::prelude::*;
use vstd::std_specs::hash::DefaultHasherAdditionalSpecFns;

verus! {

/// Ceiling division of a token count into blocks of `TOKENS_PER_BLOCK` tokens.
pub open spec fn spec_tokens_to_blocks(tokens: nat) -> nat {
    (tokens + crate::TOKENS_PER_BLOCK - 1) as nat / crate::TOKENS_PER_BLOCK as nat
}

/// Ceiling division into blocks is monotone in the token count.
pub proof fn lemma_tokens_to_blocks_monotone(t1: nat, t2: nat)
    requires
        t1 <= t2,
    ensures
        spec_tokens_to_blocks(t1) <= spec_tokens_to_blocks(t2),
{
    vstd::arithmetic::div_mod::lemma_div_is_ordered(
        (t1 + crate::TOKENS_PER_BLOCK - 1) as int,
        (t2 + crate::TOKENS_PER_BLOCK - 1) as int,
        crate::TOKENS_PER_BLOCK as int,
    );
}

/// A scoped claim on a number of KV-cache blocks. Only
/// [`PagedKvManager::try_reserve`] creates one, and
/// [`PagedKvManager::release`] consumes it, so a reservation's contribution
/// to the used count is subtracted exactly once.
pub struct Reservation {
    blocks: usize,
}

impl Reservation {
    /// The number of blocks this reservation holds.
    pub closed spec fn spec_blocks(self) -> nat {
        self.blocks as nat
    }

    /// The number of blocks this reservation holds.
    pub fn blocks(&self) -> (r: usize)
        ensures
            r as nat == self.spec_blocks(),
    {
        self.blocks
    }
}

/// Admission-grade accounting for a bounded pool of KV-cache blocks.
pub struct PagedKvManager {
    capacity_blocks: usize,
    used_blocks: usize,
    enable_spill: bool,
    free_list: Vec<usize>,
}

impl PagedKvManager {
    /// Capacity of the pool, in blocks.
    pub closed spec fn spec_capacity(self) -> nat {
        self.capacity_blocks as nat
    }

    /// Blocks currently claimed by live reservations.
    pub closed spec fn spec_used(self) -> nat {
        self.used_blocks as nat
    }

    /// The spill-to-host flag (reserved for future spill logic).
    pub closed spec fn spec_spill(self) -> bool {
        self.enable_spill
    }

    /// The free-list sketch kept for defragmentation.
    pub closed spec fn spec_free_list(self) -> Seq<usize> {
        self.free_list@
    }

    /// The used count never exceeds capacity.
    pub open spec fn wf(self) -> bool {
        self.spec_used() <= self.spec_capacity()
    }

    /// Everything but the used count is unchanged.
    pub open spec fn same_config(self, other: Self) -> bool {
        self.spec_capacity() == other.spec_capacity()
            && self.spec_spill() == other.spec_spill()
            && self.spec_free_list() == other.spec_free_list()
    }

    /// A manager over `capacity_bytes / 4096` blocks, with nothing used.
    pub fn new(capacity_bytes: usize) -> (r: Self)
        ensures
            r.wf(),
            r.spec_capacity() == capacity_bytes as nat / crate::BYTES_PER_BLOCK as nat,
            r.spec_used() == 0,
            !r.spec_spill(),
            r.spec_free_list() == Seq::<usize>::empty(),
    {
        PagedKvManager {
            capacity_blocks: capacity_bytes / crate::BYTES_PER_BLOCK,
            used_blocks: 0,
            enable_spill: false,
            free_list: Vec::new(),
        }
    }

    /// Ceiling-divide a token count into blocks.
    pub fn tokens_to_blocks(&self, tokens: usize) -> (r: usize)
        ensures
            r as nat == spec_tokens_to_blocks(tokens as nat),
    {
        if tokens == 0 {
            0
        } else {
            let r = 1 + (tokens - 1) / crate::TOKENS_PER_BLOCK;
            proof {
                vstd::arithmetic::div_mod::lemma_div_plus_one(
                    tokens - 1,
                    crate::TOKENS_PER_BLOCK as int,
                );
            }
            r
        }
    }

    /// Atomically claim `blocks` blocks if and only if the claim fits under
    /// the capacity ceiling; this is the admission serialization point.
    /// Mirrors the model transition [`KvEvent::Reserve`] on success and
    /// [`KvEvent::Deny`] on failure.
    pub fn try_reserve(&mut self, blocks: usize) -> (r: Option<Reservation>)
        requires
            old(self).wf(),
        ensures
            final(self).wf(),
            final(self).same_config(*old(self)),
            r is Some <==> old(self).spec_used() + blocks as nat <= old(self).spec_capacity(),
            r matches Some(res) ==> res.spec_blocks() == blocks as nat && final(self).spec_used()
                == old(self).spec_used() + blocks as nat,
            r is None ==> final(self).spec_used() == old(self).spec_used(),
    {
        if blocks <= self.capacity_blocks - self.used_blocks {
            self.used_blocks = self.used_blocks + blocks;
            Some(Reservation { blocks })
        } else {
            None
        }
    }

    /// Blocks currently claimed by live reservations.
    pub fn used_blocks(&self) -> (r: usize)
        ensures
            r as nat == self.spec_used(),
    {
        self.used_blocks
    }

    /// Capacity of the pool, in blocks.
    pub fn capacity_blocks(&self) -> (r: usize)
        ensures
            r as nat == self.spec_capacity(),
    {
        self.capacity_blocks
    }

    /// Give a reservation's blocks back to the pool. Consuming the
    /// reservation by value makes a second release of the same claim
    /// impossible. Mirrors the model transition [`KvEvent::Release`].
    pub fn release(&mut self, r: Reservation)
        requires
            old(self).wf(),
            r.spec_blocks() <= old(self).spec_used(),
        ensures
            final(self).wf(),
            final(self).spec_capacity() == old(self).spec_capacity(),
            final(self).spec_spill() == old(self).spec_spill(),
            final(self).spec_used() == old(self).spec_used() - r.spec_blocks(),
            final(self).spec_free_list() == old(self).spec_free_list().push(
                (r.spec_blocks() as usize),
            ),
    {
        self.used_blocks = self.used_blocks - r.blocks;
        self.free_list.push(r.blocks);
    }

    /// Discard the free-list sketch; a no-op on accounting.
    pub fn defragment(&mut self)
        ensures
            final(self).spec_capacity() == old(self).spec_capacity(),
            final(self).spec_used() == old(self).spec_used(),
            final(self).spec_spill() == old(self).spec_spill(),
            final(self).spec_free_list() == Seq::<usize>::empty(),
            old(self).wf() ==> final(self).wf(),
    {
        self.free_list.clear();
    }

    /// Set the flag reserved for future spill-to-host logic.
    pub fn enable_spill_to_host(&mut self, enable: bool)
        ensures
            final(self).spec_capacity() == old(self).spec_capacity(),
            final(self).spec_used() == old(self).spec_used(),
            final(self).spec_free_list() == old(self).spec_free_list(),
            final(self).spec_spill() == enable,
            old(self).wf() ==> final(self).wf(),
    {
        self.enable_spill = enable;
    }
}

/// A naive whole-buffer cache kept for comparison with the paged manager.
pub struct NaiveKvCache {
    pub capacity_bytes: usize,
}

impl NaiveKvCache {
    pub fn new(capacity_bytes: usize) -> (r: Self)
        ensures
            r.capacity_bytes == capacity_bytes,
    {
        NaiveKvCache { capacity_bytes }
    }
}

/// How many of a prompt's leading bytes the prefix fingerprint covers.
pub const PREFIX_HASH_BYTES: usize = 256;

/// The leading bytes of a text that the prefix fingerprint is taken over.
pub open spec fn spec_prefix_bytes(s: Seq<char>) -> Seq<u8> {
    let bytes = vstd::utf8::encode_utf8(s);
    if bytes.len() > PREFIX_HASH_BYTES {
        bytes.take(PREFIX_HASH_BYTES as int)
    } else {
        bytes
    }
}

/// The 64-bit fingerprint of a text's prefix: a pure function of the
/// characters, so equal texts always get the same fingerprint and reuse
/// is detectable.
pub open spec fn spec_hash_prefix(s: Seq<char>) -> u64 {
    DefaultHasher::spec_finish(seq![spec_prefix_bytes(s)])
}

/// The occurrence count recorded for fingerprint `h`, zero when absent.
pub open spec fn count_in(m: Map<u64, usize>, h: u64) -> nat {
    if m.contains_key(h) {
        m[h] as nat
    } else {
        0
    }
}

/// One observation of fingerprint `h`: its count goes up by one,
/// saturating at the machine limit; nothing else changes.
pub open spec fn note_step(m: Map<u64, usize>, h: u64) -> Map<u64, usize> {
    let c = count_in(m, h);
    m.insert(h, if c < usize::MAX { (c + 1) as usize } else { c as usize })
}

/// The counts map after `k` observations of fingerprint `h`.
pub open spec fn counts_after_notes(m: Map<u64, usize>, h: u64, k: nat) -> Map<u64, usize>
    decreases k,
{
    if k == 0 {
        m
    } else {
        note_step(counts_after_notes(m, h, (k - 1) as nat), h)
    }
}

/// Prefix count exactness: after `k` observations of `h` on a fresh cache,
/// the recorded count is exactly `k`, and `h` counts as common precisely
/// when `k >= 2`.
pub proof fn lemma_note_count(h: u64, k: nat)
    requires
        k <= usize::MAX,
    ensures
        count_in(counts_after_notes(Map::<u64, usize>::empty(), h, k), h) == k,
        count_in(counts_after_notes(Map::<u64, usize>::empty(), h, k), h) >= 2 <==> k >= 2,
    decreases k,
{
    if k != 0 {
        lemma_note_count(h, (k - 1) as nat);
    }
}

/// Prefix count monotonicity: an observation never lowers any count.
pub proof fn lemma_note_monotone(m: Map<u64, usize>, noted: u64, h: u64)
    ensures
        count_in(note_step(m, noted), h) >= count_in(m, h),
{
}

/// Content-addressed memo of recently seen prompt prefixes: an occurrence
/// count per fingerprint, and an optional memoized token sequence.
pub struct PrefixCache {
    counts: HashMap<u64, usize>,
    tokens: HashMap<u64, Vec<u32>>,
}

impl PrefixCache {
    /// The recorded occurrence counts, by fingerprint.
    pub closed spec fn spec_counts(self) -> Map<u64, usize> {
        self.counts@
    }

    /// The memoized token sequences, by fingerprint.
    pub closed spec fn spec_token_memo(self) -> Map<u64, Seq<u32>> {
        self.tokens@.map_values(|v: Vec<u32>| v@)
    }

    /// The occurrence count recorded for fingerprint `h`.
    pub open spec fn spec_count(self, h: u64) -> nat {
        count_in(self.spec_counts(), h)
    }

    /// An empty cache: no counts, no memoized tokens.
    pub fn new() -> (r: Self)
        ensures
            r.spec_counts() == Map::<u64, usize>::empty(),
            r.spec_token_memo() == Map::<u64, Seq<u32>>::empty(),
    {
        let r = PrefixCache { counts: HashMap::new(), tokens: HashMap::new() };
        proof {
            assert(r.spec_token_memo() =~= Map::<u64, Seq<u32>>::empty());
        }
        r
    }

    /// The deterministic fingerprint of the first up-to-256 bytes of `text`.
    pub fn hash_prefix(&self, text: &str) -> (r: u64)
        ensures
            r == spec_hash_prefix(text@),
    {
        let bytes: &[u8] = text.as_bytes();
        let n: usize = if bytes.len() > PREFIX_HASH_BYTES {
            PREFIX_HASH_BYTES
        } else {
            bytes.len()
        };
        let prefix: &[u8] = vstd::slice::slice_subrange(bytes, 0, n);
        proof {
            assert(prefix@ =~= spec_prefix_bytes(text@));
        }
        let mut hasher = DefaultHasher::new();
        hasher.write(prefix);
        proof {
            assert(hasher@ =~= seq![spec_prefix_bytes(text@)]);
        }
        hasher.finish()
    }

    /// Record one observation of fingerprint `h`.
    pub fn note(&mut self, h: u64)
        ensures
            final(self).spec_counts() == note_step(old(self).spec_counts(), h),
            final(self).spec_token_memo() == old(self).spec_token_memo(),
            final(self).spec_count(h) >= old(self).spec_count(h),
            old(self).spec_count(h) < usize::MAX ==> final(self).spec_count(h) == old(
                self,
            ).spec_count(h) + 1,
    {
        let c: usize = match self.counts.get(&h) {
            Some(v) => *v,
            None => 0,
        };
        let c1: usize = if c < usize::MAX {
            c + 1
        } else {
            c
        };
        self.counts.insert(h, c1);
    }

    /// Whether fingerprint `h` has been seen at least twice.
    pub fn is_common(&self, h: u64) -> (r: bool)
        ensures
            r == (self.spec_count(h) >= 2),
    {
        match self.counts.get(&h) {
            Some(v) => *v >= 2,
            None => false,
        }
    }

    /// Memoize a tokenization under fingerprint `h`.
    pub fn put_tokens(&mut self, h: u64, toks: Vec<u32>)
        ensures
            final(self).spec_counts() == old(self).spec_counts(),
            final(self).spec_token_memo() == old(self).spec_token_memo().insert(h, toks@),
    {
        self.tokens.insert(h, toks);
        proof {
            assert(self.spec_token_memo() =~= old(self).spec_token_memo().insert(h, toks@));
        }
    }

    /// Look up a memoized tokenization; absence is an ordinary outcome.
    pub fn get_tokens(&self, h: u64) -> (r: Option<Vec<u32>>)
        ensures
            match r {
                Some(v) => self.spec_token_memo().contains_key(h) && v@
                    == self.spec_token_memo()[h],
                None => !self.spec_token_memo().contains_key(h),
            },
    {
        match self.tokens.get(&h) {
            Some(v) => {
                let mut out: Vec<u32> = Vec::new();
                let mut i: usize = 0;
                while i < v.len()
                    invariant
                        i <= v.len(),
                        out@ == v@.take(i as int),
                    decreases v.len() - i,
                {
                    out.push(v[i]);
                    proof {
                        assert(out@ =~= v@.take(i + 1));
                    }
                    i = i + 1;
                }
                proof {
                    assert(out@ =~= v@);
                }
                Some(out)
            },
            None => None,
        }
    }
}

// ---------------------------------------------------------------------------
// Accounting model: any interleaving of reservation traffic, serialized at
// the manager, is a sequence of these events. The laws below show that the
// used count always equals the sum of the live reservation sizes and never
// exceeds capacity, and that a denied claim stays denied until a release.
// ---------------------------------------------------------------------------

/// Sum of a sequence of reservation sizes.
pub open spec fn blocks_sum(s: Seq<nat>) -> nat
    decreases s.len(),
{
    if s.len() == 0 {
        0
    } else {
        s[0] + blocks_sum(s.drop_first())
    }
}

/// Abstract state of a manager: its capacity, its used count, and the
/// sizes of the reservations currently live, in order of issue.
pub struct KvState {
    pub capacity: nat,
    pub used: nat,
    pub live: Seq<nat>,
}

/// One serialized manager operation.
pub enum KvEvent {
    /// A `try_reserve` call that succeeded.
    Reserve { blocks: nat },
    /// A `try_reserve` call that returned none.
    Deny { blocks: nat },
    /// The release of the live reservation at position `slot`.
    Release { slot: int },
}

/// A fresh manager: nothing used, nothing live.
pub open spec fn kv_init(capacity: nat) -> KvState {
    KvState { capacity, used: 0, live: Seq::empty() }
}

/// When an event can happen, mirroring the contracts of `try_reserve`
/// and `release`.
pub open spec fn kv_enabled(s: KvState, e: KvEvent) -> bool {
    match e {
        KvEvent::Reserve { blocks } => s.used + blocks <= s.capacity,
        KvEvent::Deny { blocks } => s.used + blocks > s.capacity,
        KvEvent::Release { slot } => 0 <= slot < s.live.len(),
    }
}

/// The state after an event, mirroring the contracts of `try_reserve`
/// and `release`.
pub open spec fn kv_step(s: KvState, e: KvEvent) -> KvState {
    match e {
        KvEvent::Reserve { blocks } => KvState {
            used: s.used + blocks,
            live: s.live.push(blocks),
            ..s
        },
        KvEvent::Deny { .. } => s,
        KvEvent::Release { slot } => KvState {
            used: (s.used - s.live[slot]) as nat,
            live: s.live.remove(slot),
            ..s
        },
    }
}

/// The state after a whole sequence of events.
pub open spec fn kv_run(s: KvState, es: Seq<KvEvent>) -> KvState
    decreases es.len(),
{
    if es.len() == 0 {
        s
    } else {
        kv_run(kv_step(s, es[0]), es.drop_first())
    }
}

/// Every event in the sequence is enabled in the state it meets.
pub open spec fn kv_run_enabled(s: KvState, es: Seq<KvEvent>) -> bool
    decreases es.len(),
{
    es.len() == 0 || (kv_enabled(s, es[0]) && kv_run_enabled(kv_step(s, es[0]), es.drop_first()))
}

/// Conservation and ceiling: the used count is exactly the sum of the live
/// reservation sizes, and stays under capacity.
pub open spec fn kv_inv(s: KvState) -> bool {
    s.used == blocks_sum(s.live) && s.used <= s.capacity
}

proof fn lemma_blocks_sum_push(s: Seq<nat>, x: nat)
    ensures
        blocks_sum(s.push(x)) == blocks_sum(s) + x,
    decreases s.len(),
{
    assert(s.push(x)[0] == if s.len() == 0 { x } else { s[0] });
    if s.len() == 0 {
        assert(s.push(x).drop_first() =~= Seq::<nat>::empty());
        assert(blocks_sum(s.push(x)) == x + blocks_sum(Seq::<nat>::empty()));
    } else {
        assert(s.push(x).drop_first() =~= s.drop_first().push(x));
        lemma_blocks_sum_push(s.drop_first(), x);
    }
}

proof fn lemma_blocks_sum_remove(s: Seq<nat>, i: int)
    requires
        0 <= i < s.len(),
    ensures
        blocks_sum(s) == blocks_sum(s.remove(i)) + s[i],
    decreases s.len(),
{
    if i == 0 {
        assert(s.remove(0) =~= s.drop_first());
    } else {
        assert(s.remove(i).drop_first() =~= s.drop_first().remove(i - 1));
        lemma_blocks_sum_remove(s.drop_first(), i - 1);
    }
}

/// Each enabled event preserves conservation and the capacity ceiling.
pub proof fn lemma_kv_step_inv(s: KvState, e: KvEvent)
    requires
        kv_inv(s),
        kv_enabled(s, e),
    ensures
        kv_inv(kv_step(s, e)),
{
    match e {
        KvEvent::Reserve { blocks } => {
            lemma_blocks_sum_push(s.live, blocks);
        },
        KvEvent::Deny { .. } => {},
        KvEvent::Release { slot } => {
            lemma_blocks_sum_remove(s.live, slot);
        },
    }
}

/// Conservation holds along any enabled run from an invariant state.
pub proof fn lemma_kv_run_inv(s: KvState, es: Seq<KvEvent>)
    requires
        kv_inv(s),
        kv_run_enabled(s, es),
    ensures
        kv_inv(kv_run(s, es)),
        kv_run(s, es).capacity == s.capacity,
    decreases es.len(),
{
    if es.len() != 0 {
        lemma_kv_step_inv(s, es[0]);
        lemma_kv_run_inv(kv_step(s, es[0]), es.drop_first());
    }
}

proof fn lemma_kv_run_enabled_prefix(s: KvState, es: Seq<KvEvent>, i: int)
    requires
        kv_run_enabled(s, es),
        0 <= i <= es.len(),
    ensures
        kv_run_enabled(s, es.take(i)),
    decreases es.len(),
{
    if i != 0 {
        assert(es.take(i)[0] == es[0]);
        assert(es.take(i).drop_first() =~= es.drop_first().take(i - 1));
        lemma_kv_run_enabled_prefix(kv_step(s, es[0]), es.drop_first(), i - 1);
    }
}

/// Reservation conservation: after any interleaving of successful, denied
/// and released claims on a fresh manager, the used count equals the sum of
/// the sizes of the reservations still live.
pub proof fn lemma_reservation_conservation(capacity: nat, es: Seq<KvEvent>)
    requires
        kv_run_enabled(kv_init(capacity), es),
    ensures
        kv_run(kv_init(capacity), es).used == blocks_sum(kv_run(kv_init(capacity), es).live),
{
    lemma_kv_run_inv(kv_init(capacity), es);
}

/// Capacity ceiling: at every observation point of any interleaving on a
/// fresh manager, the used count is at most the capacity.
pub proof fn lemma_capacity_ceiling(capacity: nat, es: Seq<KvEvent>, i: int)
    requires
        kv_run_enabled(kv_init(capacity), es),
        0 <= i <= es.len(),
    ensures
        kv_run(kv_init(capacity), es.take(i)).used <= capacity,
{
    lemma_kv_run_enabled_prefix(kv_init(capacity), es, i);
    lemma_kv_run_inv(kv_init(capacity), es.take(i));
    assert(kv_inv(kv_run(kv_init(capacity), es.take(i))));
}

/// A zero-block claim always fits: it is a no-op on accounting.
pub proof fn lemma_zero_claim_always_admitted(s: KvState)
    requires
        kv_inv(s),
    ensures
        kv_enabled(s, KvEvent::Reserve { blocks: 0 }),
        kv_step(s, KvEvent::Reserve { blocks: 0 }).used == s.used,
{
}

/// A claim larger than the whole capacity can never be admitted.
pub proof fn lemma_oversized_claim_always_denied(s: KvState, blocks: nat)
    requires
        blocks > s.capacity,
    ensures
        !kv_enabled(s, KvEvent::Reserve { blocks }),
{
}

/// Admission monotonicity: a claim denied now stays denied across any run
/// that releases nothing.
pub proof fn lemma_admission_monotone(s: KvState, es: Seq<KvEvent>, blocks: nat)
    requires
        kv_enabled(s, KvEvent::Deny { blocks }),
        kv_run_enabled(s, es),
        forall|i: int| 0 <= i < es.len() ==> !(es[i] is Release),
    ensures
        kv_enabled(kv_run(s, es), KvEvent::Deny { blocks }),
    decreases es.len(),
{
    if es.len() != 0 {
        let s1 = kv_step(s, es[0]);
        assert(s1.used >= s.used);
        assert(forall|i: int|
            0 <= i < es.drop_first().len() ==> !(es.drop_first()[i] is Release));
        lemma_admission_monotone(s1, es.drop_first(), blocks);
    }
}

} // verus!
