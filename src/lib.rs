//! Core of a single-threaded, completion-based I/O runtime: key minting and
//! completion bookkeeping for the kernel ring, the task table with its ready
//! queue and join slots, and the conversions at the kernel boundary.
use vstd::prelude::*;

pub mod addr;
pub mod error;
pub mod io_op;
pub mod key;
pub mod laws;
pub mod open;
pub mod platform;
pub mod registry;
pub mod runtime;

use error::UringError;
use platform::{is_init_outcome, outcome_of, Platform};
use registry::IoModel;
use runtime::Runtime;

verus! {

/// Starts the broker for a runtime: creates and checks the ring. The caller
/// keeps the returned platform for the thread it runs on.
pub fn init() -> (r: Result<Platform, UringError>)
    ensures
        is_init_outcome(outcome_of(r)),
        r is Ok ==> r->Ok_0.registry@ == IoModel::fresh() && r->Ok_0.registry@.wf(),
{
    Platform::new()
}

/// Spawns `task` on a running runtime and returns its id, which the join
/// handle keeps. Spawning outside a run is not allowed.
pub fn spawn<T, R>(rt: &mut Runtime<T, R>, task: T) -> (id: u32)
    requires
        old(rt)@.wf(),
        old(rt)@.running,
    ensures
        id == old(rt)@.counter,
        id != 0,
        final(rt)@ == old(rt)@.spawn(task),
        final(rt)@.wf(),
{
    rt.spawn(task)
}

} // verus!
