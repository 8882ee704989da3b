//! Handing work to the main thread.
//!
//! Where no thread is set apart as the main thread, dispatch has nowhere to
//! go: the work runs at once, on the thread that dispatched it, and the
//! caller gets exactly what the work returned.

use vstd::future::FutureAdditionalSpecFns;
use vstd::prelude::*;

verus! {

/// `std::future::Ready`: a future that is complete from the moment it is
/// made. Nothing is known of it here but the value it resolves to.
#[verifier::external_type_specification]
#[verifier::external_body]
#[verifier::reject_recursive_types(T)]
pub struct ExReady<T>(std::future::Ready<T>);

/// `std::future::ready` makes a future that is immediately ready with the
/// value given: awaiting it yields that value.
pub assume_specification<T>[ std::future::ready::<T> ](value: T) -> (fut: std::future::Ready<T>)
    ensures
        fut@ == value,
;

/// Runs `f` on the main thread and blocks until it is done.
///
/// The work runs once, on the calling thread, before this returns, and the
/// result is what `f` produced.
///
/// Where a platform does set a main thread apart, a blocking dispatch from
/// that very thread would wait on itself; callers written for both kinds of
/// platform never dispatch from the main thread.
pub fn on_main_sync<F, R>(f: F) -> (result: R) where
    F: FnOnce() -> R + Send + 'static,
    R: Send + 'static,

    requires
        f.requires(()),
    ensures
        f.ensures((), result),
{
    f()
}

/// Runs `f` on the main thread and returns a future of its result.
///
/// The work runs once, on the calling thread, before this returns. The
/// future is complete from the start, so awaiting it never suspends the
/// task, and it resolves to what `f` produced. Dropping the future unread
/// discards the result and nothing else.
pub fn on_main<F, R>(f: F) -> (pending: std::future::Ready<R>) where
    F: FnOnce() -> R + Send + 'static,
    R: Send + 'static,

    requires
        f.requires(()),
    ensures
        f.ensures((), pending@),
{
    std::future::ready(f())
}

} // verus!
