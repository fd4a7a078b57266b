//! The state machine of one kernel operation, as its future drives it:
//! `NotSubmitted -> Submitted(key) -> Done`.
use vstd::prelude::*;
use crate::key::next_id;
use crate::registry::{IoModel, IoRegistry};

verus! {

/// Where an operation stands.
#[derive(Clone, Copy, Debug, PartialEq, Eq, Structural)]
pub enum OpState {
    NotSubmitted,
    Submitted(u32),
    Done,
}

/// What a poll of an operation asks of its future.
#[derive(Clone, Copy, Debug, PartialEq, Eq, Structural)]
pub enum IoPoll {
    /// Tag the prepared entry with this key, push it to the ring, and yield.
    Submit(u32),
    /// The completion has not arrived; yield.
    Pending,
    /// The operation finished with this raw result.
    Ready(i32),
}

/// One kernel operation.
pub struct IoOp {
    pub state: OpState,
}

/// The registry after the operation of `task` is registered under the next
/// key.
pub open spec fn after_begin(m: IoModel, task: u32) -> IoModel {
    (IoModel { counter: next_id(m.counter), ..m }).register(m.counter, task)
}

impl IoOp {
    /// An operation whose entry is prepared but not yet submitted.
    pub fn new() -> (r: IoOp)
        ensures
            r.state == OpState::NotSubmitted,
    {
        IoOp { state: OpState::NotSubmitted }
    }

    /// Polls the operation on behalf of task `current`.
    ///
    /// Not yet submitted: a key is minted and registered for `current`, and
    /// the caller is told to submit under it. Submitted: the completion is
    /// taken if it arrived. Polling a finished operation is not allowed.
    pub fn poll(&mut self, reg: &mut IoRegistry, current: u32) -> (r: IoPoll)
        requires
            old(self).state != OpState::Done,
            old(reg)@.wf(),
        ensures
            final(reg)@.wf(),
            old(self).state == OpState::NotSubmitted ==> {
                &&& r == IoPoll::Submit(old(reg)@.counter)
                &&& final(self).state == OpState::Submitted(old(reg)@.counter)
                &&& final(reg)@ == after_begin(old(reg)@, current)
            },
            old(self).state is Submitted ==> {
                let key = old(self).state->Submitted_0;
                let (m, c) = old(reg)@.take(key);
                &&& final(reg)@ == m
                &&& c is Some ==> r == IoPoll::Ready(c->0) && final(self).state == OpState::Done
                &&& c is None ==> r == IoPoll::Pending && final(self).state == old(self).state
            },
    {
        match self.state {
            OpState::NotSubmitted => {
                let key = reg.begin_io(current);
                self.state = OpState::Submitted(key);
                IoPoll::Submit(key)
            },
            OpState::Submitted(key) => {
                match reg.take_completion(key) {
                    Some(res) => {
                        self.state = OpState::Done;
                        IoPoll::Ready(res)
                    },
                    None => IoPoll::Pending,
                }
            },
            OpState::Done => IoPoll::Pending,
        }
    }

    /// Called when the operation's future is dropped. If the operation is
    /// submitted and still pending, its key leaves the registry and is
    /// returned: the caller sends one cancellation for it. Otherwise nothing
    /// changes.
    pub fn cancel_on_drop(&self, reg: &mut IoRegistry) -> (r: Option<u32>)
        requires
            old(reg)@.wf(),
        ensures
            final(reg)@.wf(),
            self.state is Submitted ==> {
                let key = self.state->Submitted_0;
                &&& final(reg)@ == old(reg)@.cancel(key).0
                &&& r == (if old(reg)@.submissions.contains_key(key) { Some(key) } else { None::<u32> })
            },
            !(self.state is Submitted) ==> r is None && final(reg)@ == old(reg)@,
    {
        match self.state {
            OpState::Submitted(key) => {
                if reg.cancel(key) {
                    Some(key)
                } else {
                    None
                }
            },
            _ => None,
        }
    }
}

} // verus!
