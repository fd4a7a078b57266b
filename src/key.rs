//! Identifiers for in-flight kernel operations and for spawned tasks.
use vstd::prelude::*;

verus! {

/// The value that follows `c` on a 32-bit counter that wraps around and never
/// yields the reserved value `0`.
pub open spec fn next_id(c: u32) -> u32 {
    if c == u32::MAX {
        1
    } else {
        (c + 1) as u32
    }
}

/// Advances a 32-bit identifier counter, wrapping around and skipping `0`.
pub fn advance_id(c: u32) -> (r: u32)
    ensures
        r == next_id(c),
        r != 0,
{
    let n = c.wrapping_add(1);
    if n == 0 {
        1
    } else {
        n
    }
}

/// Identifies one kernel operation tracked by the completion broker.
/// The value `0` is reserved for fire-and-forget closes.
#[derive(Clone, Copy, Debug, PartialEq, Eq, Structural, Hash)]
pub struct IoKey {
    pub inner: u32,
}

/// Identifies a spawned task; the value `0` is the root task.
#[derive(Clone, Copy, Debug, PartialEq, Eq, Structural, Hash)]
pub struct TaskId {
    pub inner: u32,
}

impl From<u32> for IoKey {
    fn from(value: u32) -> (r: IoKey)
        ensures
            r.inner == value,
    {
        IoKey { inner: value }
    }
}

impl vstd::std_specs::convert::FromSpecImpl<u32> for IoKey {
    open spec fn obeys_from_spec() -> bool {
        true
    }

    open spec fn from_spec(v: u32) -> IoKey {
        IoKey { inner: v }
    }
}

impl From<u32> for TaskId {
    fn from(value: u32) -> (r: TaskId)
        ensures
            r.inner == value,
    {
        TaskId { inner: value }
    }
}

impl vstd::std_specs::convert::FromSpecImpl<u32> for TaskId {
    open spec fn obeys_from_spec() -> bool {
        true
    }

    open spec fn from_spec(v: u32) -> TaskId {
        TaskId { inner: v }
    }
}

/// The id of the root task.
pub const ROOT_TASK: u32 = 0;

/// The io key reserved for fire-and-forget closes.
pub const CLOSE_KEY: u32 = 0;

} // verus!
