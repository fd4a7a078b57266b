//! Completion bookkeeping for the kernel ring: io-key minting, the map of
//! pending submissions (`key -> task`) and the map of published completions
//! (`key -> raw result`).
use std::collections::HashMap;
use vstd::prelude::*;
use crate::key::{next_id, advance_id};

verus! {

broadcast use vstd::std_specs::hash::group_hash_axioms;

/// The abstract state of an [`IoRegistry`].
pub ghost struct IoModel {
    /// The next io key to hand out.
    pub counter: u32,
    /// In-flight operations and the task that submitted each one.
    pub submissions: Map<u32, u32>,
    /// Completions that arrived and were not yet taken by their future.
    pub completions: Map<u32, i32>,
}

impl IoModel {
    /// The state every registry starts in.
    pub open spec fn fresh() -> IoModel {
        IoModel { counter: 1, submissions: Map::empty(), completions: Map::empty() }
    }

    /// The counter never rests on the reserved key, the reserved key is never
    /// tracked, and no key is both pending and completed.
    pub open spec fn wf(self) -> bool {
        &&& self.counter != 0
        &&& !self.submissions.contains_key(0)
        &&& !self.completions.contains_key(0)
        &&& forall|k: u32|
            !(#[trigger] self.submissions.contains_key(k) && self.completions.contains_key(k))
    }

    /// Registers `key` as submitted by `task`. A stale completion under the
    /// same key (possible only after the counter wrapped) is forgotten.
    pub open spec fn register(self, key: u32, task: u32) -> IoModel {
        IoModel {
            submissions: self.submissions.insert(key, task),
            completions: self.completions.remove(key),
            ..self
        }
    }

    /// Handles one completion entry carrying `user_data` and `result`: the
    /// completion is published and its task woken if the key is pending, and
    /// is discarded otherwise.
    pub open spec fn deliver(self, wakeups: Seq<u32>, user_data: u64, result: i32) -> (IoModel, Seq<u32>) {
        let key = (user_data % 0x1_0000_0000) as u32;
        if self.submissions.contains_key(key) {
            (
                IoModel {
                    submissions: self.submissions.remove(key),
                    completions: self.completions.insert(key, result),
                    ..self
                },
                wakeups.push(self.submissions[key]),
            )
        } else {
            (self, wakeups)
        }
    }

    /// Handles a batch of completion entries in the order given.
    pub open spec fn deliver_all(self, wakeups: Seq<u32>, cqes: Seq<(u64, i32)>) -> (IoModel, Seq<u32>)
        decreases cqes.len(),
    {
        if cqes.len() == 0 {
            (self, wakeups)
        } else {
            let (m, w) = self.deliver_all(wakeups, cqes.drop_last());
            m.deliver(w, cqes.last().0, cqes.last().1)
        }
    }

    /// Takes the completion of `key`, if it has arrived.
    pub open spec fn take(self, key: u32) -> (IoModel, Option<i32>) {
        if self.completions.contains_key(key) {
            (IoModel { completions: self.completions.remove(key), ..self }, Some(self.completions[key]))
        } else {
            (self, None)
        }
    }

    /// Forgets the pending operation `key`; the result says whether it was
    /// still pending, and so whether a cancellation must be sent.
    pub open spec fn cancel(self, key: u32) -> (IoModel, bool) {
        (IoModel { submissions: self.submissions.remove(key), ..self }, self.submissions.contains_key(key))
    }
}

/// Mints io keys and tracks which task waits for which kernel operation.
pub struct IoRegistry {
    io_key_counter: u32,
    submissions: HashMap<u32, u32>,
    completions: HashMap<u32, i32>,
}

impl View for IoRegistry {
    type V = IoModel;

    closed spec fn view(&self) -> IoModel {
        IoModel {
            counter: self.io_key_counter,
            submissions: self.submissions@,
            completions: self.completions@,
        }
    }
}

impl IoRegistry {
    /// A registry with no operations in flight; the first key is `1`.
    pub fn new() -> (r: IoRegistry)
        ensures
            r@ == IoModel::fresh(),
            r@.wf(),
    {
        let r = IoRegistry {
            io_key_counter: 1,
            submissions: HashMap::new(),
            completions: HashMap::new(),
        };
        assert(r@.submissions =~= Map::empty());
        assert(r@.completions =~= Map::empty());
        r
    }

    /// Hands out the current key and advances the counter, wrapping around
    /// and skipping the reserved key `0`.
    pub fn new_io_key(&mut self) -> (key: u32)
        requires
            old(self)@.wf(),
        ensures
            key == old(self)@.counter,
            key != 0,
            final(self)@ == (IoModel { counter: next_id(old(self)@.counter), ..old(self)@ }),
            final(self)@.wf(),
    {
        let key = self.io_key_counter;
        self.io_key_counter = advance_id(key);
        key
    }

    /// Records that `task` waits for the operation tagged `key`.
    pub fn register(&mut self, key: u32, task: u32)
        requires
            old(self)@.wf(),
            key != 0,
        ensures
            final(self)@ == old(self)@.register(key, task),
            final(self)@.wf(),
    {
        self.submissions.insert(key, task);
        self.completions.remove(&key);
        assert(self@ =~= old(self)@.register(key, task));
    }

    /// Mints a key for a new operation of `task` and registers it.
    pub fn begin_io(&mut self, task: u32) -> (key: u32)
        requires
            old(self)@.wf(),
        ensures
            key == old(self)@.counter,
            key != 0,
            final(self)@ == (IoModel { counter: next_id(old(self)@.counter), ..old(self)@ }).register(key, task),
            final(self)@.wf(),
    {
        let key = self.new_io_key();
        self.register(key, task);
        key
    }

    /// Handles one completion entry: if its key is pending, the entry is
    /// removed, the result published and the waiting task pushed onto
    /// `wakeups`; otherwise the completion is dropped.
    pub fn deliver(&mut self, user_data: u64, result: i32, wakeups: &mut Vec<u32>)
        requires
            old(self)@.wf(),
        ensures
            (final(self)@, final(wakeups)@) == old(self)@.deliver(old(wakeups)@, user_data, result),
            final(self)@.wf(),
    {
        let key = (user_data % 0x1_0000_0000) as u32;
        match self.submissions.remove(&key) {
            Some(task) => {
                self.completions.insert(key, result);
                wakeups.push(task);
                assert(self@ =~= old(self)@.deliver(old(wakeups)@, user_data, result).0);
            },
            None => {
                assert(self@.submissions =~= old(self)@.submissions);
            },
        }
    }

    /// Handles a drained batch of completion entries `(user_data, result)`,
    /// in order.
    pub fn deliver_completions(&mut self, cqes: &Vec<(u64, i32)>, wakeups: &mut Vec<u32>)
        requires
            old(self)@.wf(),
        ensures
            (final(self)@, final(wakeups)@) == old(self)@.deliver_all(old(wakeups)@, cqes@),
            final(self)@.wf(),
    {
        let mut i: usize = 0;
        while i < cqes.len()
            invariant
                i <= cqes@.len(),
                self@.wf(),
                (self@, wakeups@) == old(self)@.deliver_all(old(wakeups)@, cqes@.subrange(0, i as int)),
            decreases cqes@.len() - i,
        {
            let (user_data, result) = cqes[i];
            proof {
                assert(cqes@.subrange(0, i + 1).drop_last() =~= cqes@.subrange(0, i as int));
            }
            self.deliver(user_data, result, wakeups);
            i = i + 1;
        }
        assert(cqes@.subrange(0, cqes@.len() as int) =~= cqes@);
    }

    /// Takes the published result of `key`, if its completion has arrived.
    pub fn take_completion(&mut self, key: u32) -> (r: Option<i32>)
        requires
            old(self)@.wf(),
        ensures
            (final(self)@, r) == old(self)@.take(key),
            final(self)@.wf(),
    {
        let r = self.completions.remove(&key);
        assert(self@.completions =~= old(self)@.take(key).0.completions);
        r
    }

    /// Forgets the pending operation `key`. Returns whether it was still
    /// pending, in which case the caller sends one cancellation for it.
    pub fn cancel(&mut self, key: u32) -> (r: bool)
        requires
            old(self)@.wf(),
        ensures
            (final(self)@, r) == old(self)@.cancel(key),
            final(self)@.wf(),
    {
        let r = self.submissions.remove(&key).is_some();
        assert(self@ =~= old(self)@.cancel(key).0);
        r
    }

    /// Whether `key` is pending.
    pub fn is_pending(&self, key: u32) -> (r: bool)
        ensures
            r == self@.submissions.contains_key(key),
    {
        self.submissions.contains_key(&key)
    }

    /// Whether a completion for `key` waits to be taken.
    pub fn has_completion(&self, key: u32) -> (r: bool)
        ensures
            r == self@.completions.contains_key(key),
    {
        self.completions.contains_key(&key)
    }

    /// The task waiting for `key`, if the operation is pending.
    pub fn pending_task(&self, key: u32) -> (r: Option<u32>)
        ensures
            r == (if self@.submissions.contains_key(key) { Some(self@.submissions[key]) } else { None::<u32> }),
    {
        match self.submissions.get(&key) {
            Some(t) => Some(*t),
            None => None,
        }
    }
}

} // verus!
