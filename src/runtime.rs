//! The task table, its ready queue and the join slots of spawned tasks.
//!
//! Tasks are held as values of `T` (in a program, pinned type-erased futures)
//! and their outputs as values of `R` (erased results); the table decides
//! which task runs next and where each finished task's output goes.
use std::collections::HashMap;
use vstd::prelude::*;
use crate::error::UringError;
use crate::key::{next_id, advance_id, ROOT_TASK};
use crate::platform::Platform;
use crate::registry::IoRegistry;

verus! {

broadcast use vstd::std_specs::hash::group_hash_axioms;

/// The join slot of a spawned task: its output once it finished, and the task
/// waiting for that output.
pub struct JoinSlot<R> {
    pub result: Option<R>,
    pub waiting_task: Option<u32>,
}

/// What the ready queue yields next.
pub enum WokenTask<T> {
    /// The root task is to be polled.
    Root,
    /// This child task is to be polled; the table gave up ownership of it
    /// until it is returned or finishes.
    Child(T),
}

/// The abstract state of a [`Runtime`].
pub ghost struct RuntimeModel<T, R> {
    /// The next task id to hand out.
    pub counter: u32,
    /// The task being polled, or last polled.
    pub current: u32,
    /// Spawned tasks that are not being polled right now.
    pub tasks: Map<u32, T>,
    /// Join slots of spawned tasks whose handle is alive.
    pub slots: Map<u32, JoinSlot<R>>,
    /// The ready queue; its last element is polled first.
    pub wakeups: Seq<u32>,
    /// Whether the driver loop is running.
    pub running: bool,
}

impl<T, R> RuntimeModel<T, R> {
    /// The state of a runtime that was never run, or was just torn down.
    pub open spec fn fresh() -> Self {
        RuntimeModel {
            counter: 1,
            current: 0,
            tasks: Map::empty(),
            slots: Map::empty(),
            wakeups: seq![0u32],
            running: false,
        }
    }

    /// The id counter never rests on the root id, and the root task is never
    /// in the table of spawned tasks.
    pub open spec fn wf(self) -> bool {
        &&& self.counter != 0
        &&& !self.tasks.contains_key(0)
        &&& !self.slots.contains_key(0)
    }

    /// Spawns `task` under the id `self.counter`, with an empty join slot,
    /// and queues it for its first poll.
    pub open spec fn spawn(self, task: T) -> Self {
        let id = self.counter;
        RuntimeModel {
            counter: next_id(id),
            tasks: self.tasks.insert(id, task),
            slots: self.slots.insert(id, JoinSlot { result: None, waiting_task: None }),
            wakeups: self.wakeups.push(id),
            ..self
        }
    }

    /// Pops ready ids until one names the root or a task in the table.
    pub open spec fn next_woken(self) -> (Self, Option<WokenTask<T>>)
        decreases self.wakeups.len(),
    {
        if self.wakeups.len() == 0 {
            (self, None)
        } else {
            let id = self.wakeups.last();
            let m = RuntimeModel { wakeups: self.wakeups.drop_last(), current: id, ..self };
            if id == 0 {
                (m, Some(WokenTask::Root))
            } else if m.tasks.contains_key(id) {
                (RuntimeModel { tasks: m.tasks.remove(id), ..m }, Some(WokenTask::Child(m.tasks[id])))
            } else {
                m.next_woken()
            }
        }
    }

    /// The current task finished with `res`: the output goes to its join
    /// slot and the waiter is woken, or it is discarded if the handle is gone.
    pub open spec fn finish(self, res: R) -> Self {
        let id = self.current;
        if self.slots.contains_key(id) {
            let w = self.slots[id].waiting_task;
            RuntimeModel {
                slots: self.slots.insert(id, JoinSlot { result: Some(res), waiting_task: w }),
                wakeups: if w is Some { self.wakeups.push(w->0) } else { self.wakeups },
                ..self
            }
        } else {
            self
        }
    }

    /// The current task is still pending and goes back into the table.
    pub open spec fn put_back(self, task: T) -> Self {
        RuntimeModel { tasks: self.tasks.insert(self.current, task), ..self }
    }

    /// Takes the output of task `id` if it finished, consuming its slot.
    pub open spec fn pop_result(self, id: u32) -> (Self, Option<R>) {
        let r = self.slots[id].result;
        if r is Some {
            (RuntimeModel { slots: self.slots.remove(id), ..self }, r)
        } else {
            (self, None)
        }
    }

    /// Records the current task as the waiter of task `id`.
    pub open spec fn wait_on(self, id: u32) -> Self {
        RuntimeModel {
            slots: self.slots.insert(id, JoinSlot { result: self.slots[id].result, waiting_task: Some(self.current) }),
            ..self
        }
    }

    /// The join handle of task `id` was dropped.
    pub open spec fn drop_handle(self, id: u32) -> Self {
        RuntimeModel { slots: self.slots.remove(id), ..self }
    }
}

/// The spawned tasks, the ready queue and the join slots of one runtime.
pub struct Runtime<T, R> {
    task_id_counter: u32,
    current_task: u32,
    tasks: HashMap<u32, T>,
    join_handles: HashMap<u32, JoinSlot<R>>,
    task_wakeups: Vec<u32>,
    running: bool,
}

impl<T, R> View for Runtime<T, R> {
    type V = RuntimeModel<T, R>;

    closed spec fn view(&self) -> RuntimeModel<T, R> {
        RuntimeModel {
            counter: self.task_id_counter,
            current: self.current_task,
            tasks: self.tasks@,
            slots: self.join_handles@,
            wakeups: self.task_wakeups@,
            running: self.running,
        }
    }
}

impl<T, R> Runtime<T, R> {
    /// A runtime with no spawned tasks and only the root task ready.
    pub fn new() -> (r: Self)
        ensures
            r@ == RuntimeModel::<T, R>::fresh(),
            r@.wf(),
    {
        let r = Runtime {
            task_id_counter: 1,
            current_task: 0,
            tasks: HashMap::new(),
            join_handles: HashMap::new(),
            task_wakeups: vec![0],
            running: false,
        };
        assert(r@.tasks =~= Map::empty());
        assert(r@.slots =~= Map::empty());
        assert(r@.wakeups =~= seq![0u32]);
        r
    }

    /// The task being polled, or last polled.
    pub fn current_task(&self) -> (r: u32)
        ensures
            r == self@.current,
    {
        self.current_task
    }

    /// Whether the driver loop is running.
    pub fn is_running(&self) -> (r: bool)
        ensures
            r == self@.running,
    {
        self.running
    }

    /// Marks the driver loop as running.
    pub fn start(&mut self)
        ensures
            final(self)@ == (RuntimeModel { running: true, ..old(self)@ }),
    {
        self.running = true;
    }

    /// Hands out the current task id and advances the counter, wrapping
    /// around and skipping the root id `0`.
    fn new_task_id(&mut self) -> (id: u32)
        requires
            old(self)@.wf(),
        ensures
            id == old(self)@.counter,
            final(self)@ == (RuntimeModel { counter: next_id(old(self)@.counter), ..old(self)@ }),
    {
        let id = self.task_id_counter;
        self.task_id_counter = advance_id(id);
        id
    }

    /// Places `task` in the table under a fresh id, creates its join slot and
    /// queues it for a first poll. Returns the id, which the join handle
    /// keeps.
    pub fn spawn(&mut self, task: T) -> (id: u32)
        requires
            old(self)@.wf(),
            old(self)@.running,
        ensures
            id == old(self)@.counter,
            id != 0,
            final(self)@ == old(self)@.spawn(task),
            final(self)@.wf(),
    {
        let id = self.new_task_id();
        self.tasks.insert(id, task);
        self.join_handles.insert(id, JoinSlot { result: None, waiting_task: None });
        self.task_wakeups.push(id);
        assert(self@.tasks =~= old(self)@.spawn(task).tasks);
        assert(self@.slots =~= old(self)@.spawn(task).slots);
        id
    }

    /// Pops the ready queue until it yields the root or a task still in the
    /// table, skipping ids of tasks that already finished. The popped id
    /// becomes the current task; a child is taken out of the table.
    pub fn get_woken_task(&mut self) -> (r: Option<WokenTask<T>>)
        requires
            old(self)@.wf(),
        ensures
            (final(self)@, r) == old(self)@.next_woken(),
            final(self)@.wf(),
    {
        loop
            invariant
                self@.wf(),
                self@.next_woken() == old(self)@.next_woken(),
            decreases self@.wakeups.len(),
        {
            let ghost before = self@;
            match self.task_wakeups.pop() {
                None => {
                    return None;
                },
                Some(id) => {
                    self.current_task = id;
                    if id == ROOT_TASK {
                        return Some(WokenTask::Root);
                    }
                    match self.tasks.remove(&id) {
                        Some(task) => {
                            assert(self@.tasks =~= before.tasks.remove(id));
                            return Some(WokenTask::Child(task));
                        },
                        None => {
                            assert(self@.tasks =~= before.tasks);
                        },
                    }
                },
            }
        }
    }

    /// The current task finished with `res`. Stores `res` in its join slot
    /// and queues the waiting task, if any; if the join handle was dropped,
    /// `res` is discarded.
    pub fn task_finished(&mut self, res: R)
        requires
            old(self)@.wf(),
        ensures
            final(self)@ == old(self)@.finish(res),
            final(self)@.wf(),
    {
        let id = self.current_task;
        match self.join_handles.remove(&id) {
            Some(slot) => {
                let waiting_task = slot.waiting_task;
                match waiting_task {
                    Some(w) => {
                        self.task_wakeups.push(w);
                    },
                    None => {},
                }
                self.join_handles.insert(id, JoinSlot { result: Some(res), waiting_task });
                assert(self@.slots =~= old(self)@.finish(res).slots);
            },
            None => {
                assert(self@.slots =~= old(self)@.slots);
            },
        }
    }

    /// Puts the current task, still pending, back into the table.
    pub fn return_task(&mut self, task: T)
        requires
            old(self)@.wf(),
            old(self)@.current != 0,
        ensures
            final(self)@ == old(self)@.put_back(task),
            final(self)@.wf(),
    {
        self.tasks.insert(self.current_task, task);
    }

    /// Takes the output of task `id` and removes its join slot, if the task
    /// finished; otherwise leaves the slot and returns `None`.
    pub fn pop_join_handle_result(&mut self, id: u32) -> (r: Option<R>)
        requires
            old(self)@.wf(),
            old(self)@.slots.contains_key(id),
        ensures
            (final(self)@, r) == old(self)@.pop_result(id),
            final(self)@.wf(),
    {
        let slot = self.join_handles.remove(&id).unwrap();
        match slot.result {
            Some(res) => {
                Some(res)
            },
            None => {
                self.join_handles.insert(id, JoinSlot { result: None, waiting_task: slot.waiting_task });
                assert(self@.slots =~= old(self)@.slots);
                None
            },
        }
    }

    /// Whether task `id` has a join slot, that is, its handle is alive and
    /// its output was not taken yet.
    pub fn has_join_slot(&self, id: u32) -> (r: bool)
        ensures
            r == self@.slots.contains_key(id),
    {
        self.join_handles.contains_key(&id)
    }

    /// Records the current task as the one waiting for task `id`.
    pub fn register_join_handle_wakeup(&mut self, id: u32)
        requires
            old(self)@.wf(),
            old(self)@.slots.contains_key(id),
        ensures
            final(self)@ == old(self)@.wait_on(id),
            final(self)@.wf(),
    {
        let slot = self.join_handles.remove(&id).unwrap();
        self.join_handles.insert(id, JoinSlot { result: slot.result, waiting_task: Some(self.current_task) });
        assert(self@.slots =~= old(self)@.wait_on(id).slots);
    }

    /// The join handle of task `id` was dropped: its slot goes, and with it
    /// any output the task left or will leave.
    pub fn drop_join_handle(&mut self, id: u32)
        requires
            old(self)@.wf(),
        ensures
            final(self)@ == old(self)@.drop_handle(id),
            final(self)@.wf(),
    {
        self.join_handles.remove(&id);
    }

    /// Hands a drained batch of completions to the registry; the task of
    /// each completion whose key is pending joins the ready queue.
    pub fn deliver_completions(&mut self, reg: &mut IoRegistry, cqes: &Vec<(u64, i32)>)
        requires
            old(self)@.wf(),
            old(reg)@.wf(),
        ensures
            (final(reg)@, final(self)@.wakeups) == old(reg)@.deliver_all(old(self)@.wakeups, cqes@),
            final(self)@ == (RuntimeModel { wakeups: final(self)@.wakeups, ..old(self)@ }),
            final(self)@.wf(),
            final(reg)@.wf(),
    {
        reg.deliver_completions(cqes, &mut self.task_wakeups);
    }

    /// Blocks on the broker until at least one completion arrives; the tasks
    /// of the delivered completions join the ready queue.
    pub fn wait_for_io(&mut self, plat: &mut Platform) -> (r: Result<(), UringError>)
        requires
            old(self)@.wf(),
            old(plat).registry@.wf(),
        ensures
            final(plat).registry@.wf(),
            final(self)@.wf(),
            final(self)@ == (RuntimeModel { wakeups: final(self)@.wakeups, ..old(self)@ }),
            r is Ok ==> exists|cqes: Seq<(u64, i32)>|
                (final(plat).registry@, final(self)@.wakeups) == #[trigger] old(plat).registry@.deliver_all(old(self)@.wakeups, cqes),
            r is Err ==> r->Err_0 is SubmitFailed && final(plat).registry@ == old(plat).registry@
                && final(self)@ == old(self)@,
    {
        let r = plat.wait_for_io(&mut self.task_wakeups);
        proof {
            if r is Ok {
                let cqes = choose|cqes: Seq<(u64, i32)>|
                    (plat.registry@, self.task_wakeups@) == #[trigger] old(plat).registry@.deliver_all(old(self).task_wakeups@, cqes);
                assert((plat.registry@, self@.wakeups) == old(plat).registry@.deliver_all(old(self)@.wakeups, cqes));
            }
        }
        r
    }

    /// Tears the runtime down after the root task finished: every join slot
    /// is dropped, the ready queue holds the root alone, the loop is marked
    /// not running, and the spawned tasks still alive are handed to the
    /// caller, which drops them.
    pub fn reset(&mut self) -> (left: HashMap<u32, T>)
        ensures
            left@ == old(self)@.tasks,
            final(self)@ == RuntimeModel::<T, R>::fresh(),
            final(self)@.wf(),
    {
        self.task_id_counter = 1;
        self.current_task = 0;
        self.join_handles = HashMap::new();
        self.task_wakeups = vec![0];
        self.running = false;
        let mut left = HashMap::new();
        std::mem::swap(&mut self.tasks, &mut left);
        assert(self@.tasks =~= Map::empty());
        assert(self@.slots =~= Map::empty());
        assert(self@.wakeups =~= seq![0u32]);
        left
    }
}

} // verus!
