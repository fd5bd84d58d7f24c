use runner_core::kv::{PagedKvManager, PrefixCache};
use runner_core::scheduler::{admission, complete, server_busy_reply, take_batch, Request, BATCH_MAX};

#[test]
fn small_capacity_admission_lifecycle() {
    // 10 blocks; a 400-byte prompt with 32 output tokens predicts
    // max(1, 400 / 4) + 32 = 132 tokens, i.e. 5 blocks.
    let mut kv = PagedKvManager::new(4096 * 10);
    let mut prefix = PrefixCache::new();
    let prompt = "a".repeat(400);
    let res = admission(&mut kv, &mut prefix, &prompt, 32).expect("admitted");
    assert_eq!(res.blocks(), 5);
    assert_eq!(kv.used_blocks(), 5);

    let (tx, mut rx) = tokio::sync::oneshot::channel::<String>();
    let req = Request { prompt: prompt.clone(), respond: tx, max_tokens: 32, reservation: Some(res) };
    complete(req, String::from("generated"), &mut kv);
    assert_eq!(kv.used_blocks(), 0);
    assert_eq!(rx.try_recv().unwrap(), "generated");
}

#[test]
fn oversubscription_turns_busy() {
    // Three distinct prompts that each predict 4 blocks: the first two fit
    // (used = 8 of 10), the third is denied.
    let mut kv = PagedKvManager::new(4096 * 10);
    let mut prefix = PrefixCache::new();
    let p1 = "a".repeat(400);
    let p2 = "b".repeat(400);
    let p3 = "c".repeat(400);
    let r1 = admission(&mut kv, &mut prefix, &p1, 28).expect("first");
    let r2 = admission(&mut kv, &mut prefix, &p2, 28).expect("second");
    assert_eq!(r1.blocks(), 4);
    assert_eq!(r2.blocks(), 4);
    assert_eq!(kv.used_blocks(), 8);
    assert!(admission(&mut kv, &mut prefix, &p3, 28).is_none());
    assert_eq!(kv.used_blocks(), 8);
    assert_eq!(server_busy_reply(), "SERVER_BUSY: insufficient KV capacity");
}

#[test]
fn repeated_prompt_gets_discount() {
    let mut kv = PagedKvManager::new(4096 * 100);
    let mut prefix = PrefixCache::new();
    let prompt = "a".repeat(400);
    let first = admission(&mut kv, &mut prefix, &prompt, 32).expect("first");
    let second = admission(&mut kv, &mut prefix, &prompt, 32).expect("second");
    // On the second admission the prefix is common, so 32 tokens are
    // discounted: 132 - 32 = 100 tokens, i.e. 4 blocks instead of 5.
    assert_eq!(first.blocks(), 5);
    assert_eq!(second.blocks(), 4);
    assert!(second.blocks() <= first.blocks());
    kv.release(first);
    kv.release(second);
    assert_eq!(kv.used_blocks(), 0);
}

#[test]
fn empty_prompt_still_estimates_one_token() {
    let mut kv = PagedKvManager::new(4096 * 10);
    let mut prefix = PrefixCache::new();
    let res = admission(&mut kv, &mut prefix, "", 0).expect("admitted");
    // max(1, 0 / 4) + 0 = 1 token rounds up to one block.
    assert_eq!(res.blocks(), 1);
    kv.release(res);
}

#[test]
fn held_reservation_releases_exactly_its_size() {
    let mut kv = PagedKvManager::new(4096 * 10);
    let r = kv.try_reserve(2).expect("reserve");
    assert!(kv.used_blocks() >= 2);
    let before = kv.used_blocks();
    kv.release(r);
    assert_eq!(kv.used_blocks(), before - 2);
}

fn plain_request(prompt: String) -> (Request, tokio::sync::oneshot::Receiver<String>) {
    let (tx, rx) = tokio::sync::oneshot::channel::<String>();
    (Request { prompt, respond: tx, max_tokens: 8, reservation: None }, rx)
}

#[test]
fn tick_dispatches_at_most_batch_max() {
    let mut pending: Vec<Request> = Vec::new();
    let mut keep_alive = Vec::new();
    for i in 0..100 {
        let (req, rx) = plain_request(format!("p{}", i));
        pending.push(req);
        keep_alive.push(rx);
    }
    let batch = take_batch(&mut pending);
    assert_eq!(batch.len(), BATCH_MAX);
    assert_eq!(pending.len(), 100 - BATCH_MAX);
    // Arrival order is preserved within the batch and across the remainder.
    assert_eq!(batch[0].prompt, "p0");
    assert_eq!(batch[31].prompt, "p31");
    assert_eq!(pending[0].prompt, "p32");
}

#[test]
fn every_request_gets_exactly_one_reply() {
    let mut kv = PagedKvManager::new(4096 * 10);
    let mut pending: Vec<Request> = Vec::new();
    let mut receivers = Vec::new();
    for i in 0..100 {
        let (req, rx) = plain_request(format!("p{}", i));
        pending.push(req);
        receivers.push(rx);
    }
    let mut batches = 0;
    while !pending.is_empty() {
        let batch = take_batch(&mut pending);
        assert!(batch.len() <= BATCH_MAX);
        assert!(!batch.is_empty());
        batches += 1;
        for req in batch {
            let text = format!("echo:{}", req.prompt);
            complete(req, text, &mut kv);
        }
    }
    assert_eq!(batches, 4);
    for (i, rx) in receivers.iter_mut().enumerate() {
        assert_eq!(rx.try_recv().unwrap(), format!("echo:p{}", i));
    }
}

#[test]
fn abandoned_caller_is_tolerated() {
    let mut kv = PagedKvManager::new(4096 * 10);
    let res = kv.try_reserve(3).expect("reserve");
    let (tx, rx) = tokio::sync::oneshot::channel::<String>();
    drop(rx);
    let req = Request {
        prompt: String::from("nobody waits"),
        respond: tx,
        max_tokens: 4,
        reservation: Some(res),
    };
    // The reply is discarded, and the reservation is still released.
    complete(req, String::from("unheard"), &mut kv);
    assert_eq!(kv.used_blocks(), 0);
}

#[test]
fn batch_coalescing_under_ticks() {
    // A hundred requests enqueued back-to-back, then a 2 ms tick loop that
    // drains them with the library's batching decisions: every reply
    // resolves, some tick coalesces at least two requests, and no tick
    // exceeds BATCH_MAX.
    let rt = tokio::runtime::Builder::new_multi_thread()
        .enable_time()
        .build()
        .unwrap();
    rt.block_on(async {
        let kv = std::sync::Arc::new(std::sync::Mutex::new(PagedKvManager::new(4096 * 4096)));
        let (tx, mut rx) = tokio::sync::mpsc::channel::<Request>(1024);
        let mut prefix = PrefixCache::new();
        let mut receivers = Vec::new();
        for i in 0..100 {
            let prompt = format!("prompt number {}", i);
            let res = {
                let mut g = kv.lock().unwrap();
                admission(&mut g, &mut prefix, &prompt, 8)
            }
            .expect("admitted");
            let (otx, orx) = tokio::sync::oneshot::channel();
            let req = Request { prompt, respond: otx, max_tokens: 8, reservation: Some(res) };
            tx.send(req).await.unwrap();
            receivers.push(orx);
        }

        let biggest_batch = std::sync::Arc::new(std::sync::atomic::AtomicUsize::new(0));
        let observed = biggest_batch.clone();
        let kv_bg = kv.clone();
        tokio::spawn(async move {
            let mut ticker = tokio::time::interval(std::time::Duration::from_millis(2));
            let mut pending: Vec<Request> = Vec::new();
            loop {
                ticker.tick().await;
                while pending.len() < BATCH_MAX {
                    match rx.try_recv() {
                        Ok(req) => pending.push(req),
                        Err(_) => break,
                    }
                }
                let batch = take_batch(&mut pending);
                if batch.is_empty() {
                    continue;
                }
                let seen = observed.load(std::sync::atomic::Ordering::Relaxed);
                if batch.len() > seen {
                    observed.store(batch.len(), std::sync::atomic::Ordering::Relaxed);
                }
                for req in batch {
                    let backend = runner_core::backend::MockBackend::new();
                    let text =
                        runner_core::decode::generate_once(&backend, &req.prompt, req.max_tokens)
                            .unwrap();
                    let mut g = kv_bg.lock().unwrap();
                    complete(req, text, &mut g);
                }
            }
        });

        for orx in receivers {
            let reply = orx.await.unwrap();
            assert!(reply.starts_with("prompt number"));
        }
        let biggest = biggest_batch.load(std::sync::atomic::Ordering::Relaxed);
        assert!(biggest >= 2);
        assert!(biggest <= BATCH_MAX);
        assert_eq!(kv.lock().unwrap().used_blocks(), 0);
    });
}

#[test]
fn empty_tick_is_noop() {
    let mut pending: Vec<Request> = Vec::new();
    let batch = take_batch(&mut pending);
    assert!(batch.is_empty());
    assert!(pending.is_empty());
}
