//! Main-thread dispatch and a test harness for programs that run their logic
//! on a task executor.
//!
//! Some platforms keep one thread apart for their event loop and allow
//! certain work on that thread alone. Code on the executor's workers hands
//! such work over with [`on_main`] or [`on_main_sync`] and gets the result
//! back. This crate is that bridge where the platform sets no thread
//! apart: dispatched work runs where it was handed over, and
//! [`is_main_thread`] holds on every thread.
//!
//! The executor lives in a [`RuntimeSlot`] that the caller owns. It is built
//! on the first [`init_runtime`] and never replaced. The harness takes the
//! registered [`TestCase`]s from a [`Registry`], runs each one to completion
//! on the executor and tallies the outcomes in a [`Report`].
//!
//! [`launch`] reads the command line of the launcher that signs a binary
//! with its entitlements before running it.

pub mod bridge;
pub mod launch;
pub mod platform;
pub mod runtime;
pub mod test_harness;

pub use bridge::{on_main, on_main_sync};
pub use platform::is_main_thread;
pub use runtime::{
    block_on, init_runtime, install_built, run_on_built, run_with_main_loop, runtime,
    ExecutorError, RuntimeSlot,
};
pub use test_harness::{
    accounted_for, check_arguments, collect_tests, run_registered, run_tests, test_runner,
    HarnessError, Registry, Report, TestCase, FAILURE_EXIT_CODE,
};
