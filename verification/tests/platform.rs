use apple_main::{block_on, init_runtime, is_main_thread, RuntimeSlot};

#[test]
fn is_main_thread_always_returns_true() {
    assert!(is_main_thread());
}

#[test]
fn is_main_thread_holds_on_an_executor_worker() {
    let mut slot = RuntimeSlot::new();
    init_runtime(&mut slot).unwrap();
    let result = block_on(&slot, async {
        tokio::spawn(async { is_main_thread() }).await.unwrap()
    });
    assert!(result);
}

#[test]
fn is_main_thread_holds_again_and_again() {
    for _ in 0..3 {
        assert!(is_main_thread());
    }
}
