//! Which thread counts as the main thread.

use vstd::prelude::*;

verus! {

/// Whether the calling thread may run main-thread work.
///
/// No thread is set apart here: work dispatched to the main thread runs on
/// the thread that asked for it, so every thread counts as the main thread.
pub fn is_main_thread() -> (on_main: bool)
    ensures
        on_main,
{
    true
}

} // verus!
