use apple_main::{
    block_on, init_runtime, install_built, run_on_built, run_with_main_loop, runtime,
    ExecutorError, RuntimeSlot,
};
use std::sync::atomic::{AtomicBool, Ordering};
use std::sync::Arc;

#[test]
fn init_runtime_creates_runtime() {
    let mut slot = RuntimeSlot::new();
    let rt = init_runtime(&mut slot).unwrap();
    let _ = rt.handle();
}

#[test]
fn init_runtime_returns_same_instance() {
    let mut slot = RuntimeSlot::new();
    let rt1 = format!("{:p}", init_runtime(&mut slot).unwrap());
    let rt2 = format!("{:p}", init_runtime(&mut slot).unwrap());
    assert!(rt1 == rt2);
}

#[test]
fn block_on_executes_future() {
    let mut slot = RuntimeSlot::new();
    init_runtime(&mut slot).unwrap();
    let result = block_on(&slot, async { 42 });
    assert_eq!(result, 42);
}

#[test]
fn block_on_with_spawn() {
    let mut slot = RuntimeSlot::new();
    init_runtime(&mut slot).unwrap();
    let result = block_on(&slot, async {
        let handle = tokio::spawn(async { 100 });
        handle.await.unwrap()
    });
    assert_eq!(result, 100);
}

#[test]
fn runtime_can_be_initialized() {
    let mut slot = RuntimeSlot::new();
    let rt = init_runtime(&mut slot).unwrap();
    let _ = rt.handle();
}

#[test]
fn block_on_runs_async_code() {
    let mut slot = RuntimeSlot::new();
    init_runtime(&mut slot).unwrap();
    let result = block_on(&slot, async { 42 });
    assert_eq!(result, 42);
}

#[test]
fn a_new_slot_is_empty_until_the_first_init() {
    let mut slot = RuntimeSlot::new();
    assert!(!slot.is_initialized());
    assert!(init_runtime(&mut slot).is_ok());
    assert!(slot.is_initialized());
}

#[test]
fn ten_inits_hand_out_one_executor() {
    let mut slot = RuntimeSlot::new();
    let mut addrs = vec![];
    for _ in 0..10 {
        addrs.push(format!("{:p}", init_runtime(&mut slot).unwrap()));
    }
    assert!(addrs.windows(2).all(|w| w[0] == w[1]));
    assert_eq!(addrs[0], format!("{:p}", runtime(&slot)));
    assert!(std::ptr::eq(runtime(&slot), runtime(&slot)));
}

#[test]
fn the_executor_has_timers_switched_on() {
    let mut slot = RuntimeSlot::new();
    init_runtime(&mut slot).unwrap();
    let done = block_on(&slot, async {
        tokio::time::sleep(std::time::Duration::from_millis(1)).await;
        true
    });
    assert!(done);
}

#[test]
fn run_with_main_loop_returns_what_the_body_resolved_to() {
    let result = run_with_main_loop(async {
        let result = async { 42 }.await;
        assert_eq!(result, 42);
        let handle = tokio::spawn(async { 100 });
        handle.await.unwrap()
    });
    assert_eq!(result.unwrap(), 100);
}

#[test]
fn executor_error_names_the_failure() {
    let error = ExecutorError { cause: std::io::Error::other("no threads left") };
    assert_eq!(error.message(), "failed to create tokio runtime");
    assert_eq!(error.cause.to_string(), "no threads left");
}

#[test]
fn test_macro_runs_async_code() {
    let mut slot = RuntimeSlot::new();
    init_runtime(&mut slot).unwrap();
    block_on(&slot, async {
        let result = async { 42 }.await;
        assert_eq!(result, 42);
    });
}

#[test]
fn test_macro_with_spawn() {
    let mut slot = RuntimeSlot::new();
    init_runtime(&mut slot).unwrap();
    block_on(&slot, async {
        let handle = tokio::spawn(async { 100 });
        let result = handle.await.unwrap();
        assert_eq!(result, 100);
    });
}

#[test]
fn run_on_built_runs_the_body_on_the_executor_built() {
    let built = tokio::runtime::Builder::new_multi_thread().enable_all().build();
    let outcome = run_on_built(built, async {
        let handle = tokio::spawn(async { 41 });
        handle.await.unwrap() + 1
    });
    assert_eq!(outcome.unwrap(), 42);
}

#[test]
fn run_on_built_passes_a_refusal_on_and_never_starts_the_body() {
    let started = Arc::new(AtomicBool::new(false));
    let seen = Arc::clone(&started);
    let refusal = std::io::Error::other("no threads left");
    let outcome = run_on_built(Err(refusal), async move {
        seen.store(true, Ordering::SeqCst);
        42
    });
    let error = outcome.unwrap_err();
    assert_eq!(error.cause.to_string(), "no threads left");
    assert_eq!(error.message(), "failed to create tokio runtime");
    assert!(!started.load(Ordering::SeqCst));
}

#[test]
fn install_built_puts_the_executor_into_the_slot() {
    let mut slot = RuntimeSlot::new();
    let built = tokio::runtime::Builder::new_multi_thread().enable_all().build();
    let installed = format!("{:p}", install_built(&mut slot, built).unwrap());
    assert!(slot.is_initialized());
    assert_eq!(installed, format!("{:p}", runtime(&slot)));
    assert_eq!(installed, format!("{:p}", init_runtime(&mut slot).unwrap()));
    assert_eq!(block_on(&slot, async { 42 }), 42);
}

#[test]
fn install_built_passes_a_refusal_on_and_leaves_the_slot_empty() {
    let mut slot = RuntimeSlot::new();
    let refusal = std::io::Error::other("no drivers left");
    let error = install_built(&mut slot, Err(refusal)).unwrap_err();
    assert_eq!(error.cause.to_string(), "no drivers left");
    assert_eq!(error.message(), "failed to create tokio runtime");
    assert!(!slot.is_initialized());
    assert!(init_runtime(&mut slot).is_ok());
}
