use apple_main::{block_on, init_runtime, on_main, on_main_sync, RuntimeSlot};
use std::sync::atomic::{AtomicUsize, Ordering};
use std::sync::Arc;

fn ready_slot() -> RuntimeSlot {
    let mut slot = RuntimeSlot::new();
    assert!(init_runtime(&mut slot).is_ok());
    slot
}

#[test]
fn on_main_returns_value() {
    let slot = ready_slot();
    let result = block_on(&slot, async { on_main(|| 42).await });
    assert_eq!(result, 42);
}

#[test]
fn on_main_executes_closure() {
    let slot = ready_slot();
    let result = block_on(&slot, async { on_main(|| String::from("hello")).await });
    assert_eq!(result, "hello");
}

#[test]
fn on_main_sync_returns_value() {
    let result = on_main_sync(|| 42);
    assert_eq!(result, 42);
}

#[test]
fn on_main_sync_executes_closure() {
    let result = on_main_sync(|| vec![1, 2, 3]);
    assert_eq!(result, vec![1, 2, 3]);
}

#[test]
fn on_main_sync_executes_and_returns() {
    let result = on_main_sync(|| "hello from main");
    assert_eq!(result, "hello from main");
}

#[test]
fn on_main_async_returns_value() {
    let slot = ready_slot();
    let result = block_on(&slot, async { on_main(|| vec![1, 2, 3]).await });
    assert_eq!(result, vec![1, 2, 3]);
}

#[test]
fn on_main_async_with_complex_type() {
    let slot = ready_slot();
    let result = block_on(&slot, async {
        on_main(|| {
            let mut map = std::collections::HashMap::new();
            map.insert("key", 42);
            map
        })
        .await
    });
    assert_eq!(result.get("key"), Some(&42));
}

#[test]
fn on_main_sync_applies_the_work_to_its_input() {
    for x in [0u64, 1, 41, u64::MAX / 2] {
        let result = on_main_sync(move || x * 2 + 1);
        assert_eq!(result, x * 2 + 1);
    }
}

#[test]
fn on_main_round_trips_a_zero_sized_value() {
    let slot = ready_slot();
    let unit: () = block_on(&slot, async { on_main(|| ()).await });
    assert_eq!(unit, ());
    assert_eq!(on_main_sync(|| ()), ());
}

#[test]
fn on_main_runs_the_work_exactly_once() {
    let slot = ready_slot();
    let runs = Arc::new(AtomicUsize::new(0));
    let seen = Arc::clone(&runs);
    let result = block_on(&slot, async move {
        on_main(move || seen.fetch_add(1, Ordering::SeqCst)).await
    });
    assert_eq!(result, 0);
    assert_eq!(runs.load(Ordering::SeqCst), 1);
}

#[test]
fn two_dispatches_at_once_do_not_interfere() {
    let slot = ready_slot();
    let (first, second) = block_on(&slot, async {
        let first = tokio::spawn(async { on_main(|| 10).await });
        let second = tokio::spawn(async { on_main(|| String::from("twenty")).await });
        (first.await.unwrap(), second.await.unwrap())
    });
    assert_eq!(first, 10);
    assert_eq!(second, "twenty");
}

#[test]
fn dropping_the_future_unread_discards_only_the_result() {
    let runs = Arc::new(AtomicUsize::new(0));
    let seen = Arc::clone(&runs);
    let pending = on_main(move || seen.fetch_add(1, Ordering::SeqCst));
    drop(pending);
    assert_eq!(runs.load(Ordering::SeqCst), 1);
}

#[test]
fn a_dispatch_raced_against_a_deadline_wins() {
    let slot = ready_slot();
    let result = block_on(&slot, async {
        tokio::time::timeout(std::time::Duration::from_secs(5), async {
            on_main(|| 42).await
        })
        .await
    });
    assert_eq!(result.ok(), Some(42));
}

#[test]
fn dispatches_in_a_row_return_in_the_order_submitted() {
    let slot = ready_slot();
    let results = block_on(&slot, async {
        let mut results = vec![];
        for i in 1..=3 {
            results.push(on_main(move || i * 10).await);
        }
        results
    });
    assert_eq!(results, vec![10, 20, 30]);
}

#[test]
fn a_dispatch_inside_a_dispatch_returns_the_inner_result() {
    let result = on_main_sync(|| on_main_sync(|| 7) + 1);
    assert_eq!(result, 8);
}
