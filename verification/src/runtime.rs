//! The task executor and the slot that holds it.
//!
//! A process has one executor. It is built the first time it is asked for
//! and stays in place until the slot is dropped: asking again hands out the
//! executor that is already there.
//!
//! The slot has one owner, and building takes the slot by unique reference,
//! so two builds can never race. A process that wants the executor in a
//! global keeps the slot behind a once-guard of its own.

use std::future::Future;
use tokio::runtime::{Builder, Handle, Runtime};
use vstd::future::FutureAdditionalSpecFns;
use vstd::prelude::*;

verus! {

/// `tokio::runtime::Runtime`, carried through as it is.
#[verifier::external_type_specification]
#[verifier::external_body]
pub struct ExRuntime(Runtime);

/// `tokio::runtime::Handle`, a reference to a runtime that can be moved to
/// other threads.
#[verifier::external_type_specification]
#[verifier::external_body]
pub struct ExHandle(Handle);

/// `std::io::Error`, the reason the operating system gave for a refusal.
#[verifier::external_type_specification]
#[verifier::external_body]
pub struct ExIoError(std::io::Error);

/// Why no executor could be had.
#[derive(Debug)]
pub struct ExecutorError {
    /// What the operating system reported when the executor's threads and
    /// drivers were set up.
    pub cause: std::io::Error,
}

impl ExecutorError {
    /// A one-line description for a fatal report.
    pub fn message(&self) -> (text: &'static str)
        ensures
            text@ == "failed to create tokio runtime"@,
    {
        "failed to create tokio runtime"
    }
}

/// The place of the process's one executor: empty, or holding it.
pub struct RuntimeSlot {
    held: Option<Runtime>,
}

impl View for RuntimeSlot {
    type V = Option<Runtime>;

    closed spec fn view(&self) -> Option<Runtime> {
        self.held
    }
}

impl RuntimeSlot {
    /// An empty slot.
    pub fn new() -> (slot: RuntimeSlot)
        ensures
            slot@ is None,
    {
        RuntimeSlot { held: None }
    }

    /// Whether the executor has been built.
    pub fn is_initialized(&self) -> (built: bool)
        ensures
            built == (self@ is Some),
    {
        self.held.is_some()
    }
}

/// How one [`init_runtime`] may change what a slot holds: an executor that
/// is there stays.
pub open spec fn executor_kept(before: Option<Runtime>, after: Option<Runtime>) -> bool {
    before is Some ==> after == before
}

/// `Builder::new_multi_thread().enable_all().build()`: a
/// multi-threaded runtime with one worker per available core and with the
/// I/O and time drivers switched on, or the error of the operating system
/// where the drivers could not be set up. Nothing is promised of which of
/// the two comes back.
///
/// The call aborts with a panic where the system has no thread left for a
/// worker.
#[verifier::external_body]
fn build_runtime() -> (built: Result<Runtime, std::io::Error>) {
    Builder::new_multi_thread().enable_all().build()
}

/// `tokio::runtime::Runtime::block_on`: drives the future on the calling
/// thread until it completes and returns the value it resolved to.
///
/// The call aborts with a panic where the future itself panics, and where
/// the calling thread is already driving a task of an executor.
#[verifier::external_body]
fn runtime_block_on<F: Future>(rt: &Runtime, future: F) -> (output: F::Output)
    ensures
        output == future@,
{
    rt.block_on(future)
}

/// `tokio::runtime::Runtime::handle`, cloned: a handle to the runtime that
/// its owner can move into a task or to another thread.
#[verifier::external_body]
pub(crate) fn runtime_handle(rt: &Runtime) -> (handle: Handle) {
    rt.handle().clone()
}

/// `tokio::runtime::Handle::block_on`: drives the future on the calling
/// thread until it completes, on the runtime that the handle refers to, and
/// returns the value it resolved to.
///
/// The call aborts with a panic where the future itself panics, and where
/// the calling thread is already driving a task of an executor.
#[verifier::external_body]
pub(crate) fn handle_block_on<F: Future>(handle: &Handle, future: F) -> (output: F::Output)
    ensures
        output == future@,
{
    handle.block_on(future)
}

/// Puts the executor that was built into the empty slot and hands it out, or
/// passes on the refusal and leaves the slot empty. `built` is what the
/// attempt to build an executor came to.
pub fn install_built(slot: &mut RuntimeSlot, built: Result<Runtime, std::io::Error>) -> (outcome:
    Result<&Runtime, ExecutorError>)
    requires
        old(slot)@ is None,
    ensures
        outcome is Ok <==> built is Ok,
        built matches Ok(rt) ==> final(slot)@ == Some(rt),
        outcome matches Ok(rt) ==> final(slot)@ == Some(*rt),
        outcome matches Err(error) ==> final(slot)@ is None && built == Err::<
            Runtime,
            std::io::Error,
        >(error.cause),
{
    match built {
        Ok(rt) => {
            slot.held = Some(rt);
            Ok(slot.held.as_ref().unwrap())
        },
        Err(cause) => Err(ExecutorError { cause }),
    }
}

/// Builds the executor if the slot is empty, and hands out the executor in
/// the slot.
///
/// On a slot that holds an executor this changes nothing and cannot fail:
/// every call after the first success returns that same executor. On an
/// empty slot it builds one and the outcome is that of [`install_built`]:
/// if the operating system refuses, the slot stays empty and the refusal is
/// returned.
pub fn init_runtime(slot: &mut RuntimeSlot) -> (outcome: Result<&Runtime, ExecutorError>)
    ensures
        executor_kept(old(slot)@, final(slot)@),
        old(slot)@ is Some ==> outcome is Ok,
        outcome is Err ==> final(slot)@ is None,
        outcome matches Ok(rt) ==> final(slot)@ == Some(*rt),
{
    if slot.held.is_none() {
        install_built(slot, build_runtime())
    } else {
        Ok(slot.held.as_ref().unwrap())
    }
}

/// The executor in the slot.
pub fn runtime(slot: &RuntimeSlot) -> (rt: &Runtime)
    requires
        slot@ is Some,
    ensures
        slot@ == Some(*rt),
{
    slot.held.as_ref().unwrap()
}

/// Blocks the calling thread until `future` completes on the slot's
/// executor, and returns what it resolved to.
///
/// Call it from a thread that is not itself running a task of an executor:
/// from inside a task the executor aborts the call with a panic, as it does
/// where `future` panics.
pub fn block_on<F: Future>(slot: &RuntimeSlot, future: F) -> (output: F::Output)
    requires
        slot@ is Some,
    ensures
        output == future@,
{
    runtime_block_on(runtime(slot), future)
}

/// Runs the body of a program to completion and returns what it resolved
/// to.
///
/// With no thread set apart for an event loop there is no loop to start and
/// no hop between threads: a fresh executor is built, and the calling thread
/// blocks on `body` until it is done. If the executor cannot be built the
/// body never starts, and the refusal is returned: see [`run_on_built`].
///
/// Call it from a thread that is not itself running a task of an executor:
/// from inside a task the executor aborts the call with a panic, as it does
/// where `body` panics.
pub fn run_with_main_loop<F: Future>(body: F) -> (outcome: Result<F::Output, ExecutorError>)
    ensures
        outcome matches Ok(output) ==> output == body@,
{
    run_on_built(build_runtime(), body)
}

/// Runs `body` to completion on the executor that was built for it and
/// returns what it resolved to, or passes on the refusal where no executor
/// could be built. `built` is what the attempt to build one came to.
///
/// Call it from a thread that is not itself running a task of an executor:
/// from inside a task the executor aborts the call with a panic, as it does
/// where `body` panics.
pub fn run_on_built<F: Future>(built: Result<Runtime, std::io::Error>, body: F) -> (outcome: Result<
    F::Output,
    ExecutorError,
>)
    ensures
        outcome is Ok <==> built is Ok,
        outcome matches Ok(output) ==> output == body@,
        outcome matches Err(error) ==> built == Err::<Runtime, std::io::Error>(error.cause),
{
    match built {
        Ok(rt) => Ok(runtime_block_on(&rt, body)),
        Err(cause) => Err(ExecutorError { cause }),
    }
}

/// However often a slot is initialized, it only ever holds one executor:
/// from the first call that left an executor in the slot, every later call
/// finds and leaves that same executor.
///
/// `slots` holds what the slot held before the first call and after each
/// call in turn.
pub proof fn lemma_one_executor(slots: Seq<Option<Runtime>>, first: int, later: int)
    requires
        forall|i: int|
            0 <= i < slots.len() - 1 ==> executor_kept(#[trigger] slots[i], slots[i + 1]),
        0 <= first <= later < slots.len(),
        slots[first] is Some,
    ensures
        slots[later] == slots[first],
    decreases later - first,
{
    if first < later {
        lemma_one_executor(slots, first, later - 1);
        assert(executor_kept(slots[later - 1], slots[later - 1 + 1]));
    }
}

} // verus!
