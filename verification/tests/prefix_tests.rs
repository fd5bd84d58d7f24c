use runner_core::kv::PrefixCache;

#[test]
fn note_counts_to_common() {
    let mut cache = PrefixCache::new();
    let h = cache.hash_prefix("the quick brown fox");
    assert!(!cache.is_common(h));
    cache.note(h);
    assert!(!cache.is_common(h));
    cache.note(h);
    assert!(cache.is_common(h));
    cache.note(h);
    assert!(cache.is_common(h));
}

#[test]
fn counts_are_per_fingerprint() {
    let mut cache = PrefixCache::new();
    let ha = cache.hash_prefix("prompt a");
    let hb = cache.hash_prefix("prompt b");
    assert_ne!(ha, hb);
    cache.note(ha);
    cache.note(ha);
    assert!(cache.is_common(ha));
    assert!(!cache.is_common(hb));
}

#[test]
fn hash_is_deterministic() {
    let cache = PrefixCache::new();
    let text = "a".repeat(400);
    assert_eq!(cache.hash_prefix(&text), cache.hash_prefix(&text));
}

#[test]
fn hash_covers_first_256_bytes_only() {
    let cache = PrefixCache::new();
    let long_a = format!("{}{}", "a".repeat(256), "tail one");
    let long_b = format!("{}{}", "a".repeat(256), "another tail");
    assert_eq!(cache.hash_prefix(&long_a), cache.hash_prefix(&long_b));
    let differs_early = format!("b{}", "a".repeat(300));
    assert_ne!(cache.hash_prefix(&long_a), cache.hash_prefix(&differs_early));
}

#[test]
fn token_memo_roundtrip() {
    let mut cache = PrefixCache::new();
    let h = cache.hash_prefix("memoized");
    assert!(cache.get_tokens(h).is_none());
    cache.put_tokens(h, vec![5u32, 6, 7]);
    assert_eq!(cache.get_tokens(h), Some(vec![5u32, 6, 7]));
    let other = cache.hash_prefix("something else");
    assert!(cache.get_tokens(other).is_none());
}
