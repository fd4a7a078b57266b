//! Properties that relate several operations of the runtime, stated over the
//! models of the registry and of the task table.
use vstd::prelude::*;
use crate::key::next_id;
use crate::error::UringError;
use crate::platform::{answers_required_opcodes, init_verdict, required_opcode_name, supported_of, InitSteps};
use crate::registry::IoModel;
use crate::runtime::{JoinSlot, RuntimeModel};

verus! {

/// A completion is either handed to exactly the task that submitted its
/// operation, which is woken once and finds the result published, or it is
/// discarded without any effect (a fire-and-forget close, or an operation
/// whose future was dropped).
pub proof fn lemma_completion_reaches_its_submitter(m: IoModel, wakeups: Seq<u32>, user_data: u64, result: i32)
    requires
        m.wf(),
    ensures
        ({
            let key = (user_data % 0x1_0000_0000) as u32;
            let (m2, w2) = m.deliver(wakeups, user_data, result);
            if m.submissions.contains_key(key) {
                &&& w2 == wakeups.push(m.submissions[key])
                &&& m2.completions.contains_key(key) && m2.completions[key] == result
                &&& !m2.submissions.contains_key(key)
            } else {
                m2 == m && w2 == wakeups
            }
        }),
{
}

/// The io key an entry's user data carries.
pub open spec fn key_of(user_data: u64) -> u32 {
    (user_data % 0x1_0000_0000) as u32
}

/// No two entries of the batch carry the same key.
pub open spec fn keys_distinct(cqes: Seq<(u64, i32)>) -> bool {
    forall|i: int, j: int|
        0 <= i < j < cqes.len() ==> key_of(#[trigger] cqes[i].0) != key_of(#[trigger] cqes[j].0)
}

/// No entry of the batch carries key `k`.
pub open spec fn outside_batch(cqes: Seq<(u64, i32)>, k: u32) -> bool {
    forall|i: int| 0 <= i < cqes.len() ==> key_of(#[trigger] cqes[i].0) != k
}

/// The tasks a batch wakes, in the order of the batch: for each entry whose
/// key is pending, the task that submitted it.
pub open spec fn woken_by(m: IoModel, cqes: Seq<(u64, i32)>) -> Seq<u32>
    decreases cqes.len(),
{
    if cqes.len() == 0 {
        Seq::empty()
    } else {
        let k = key_of(cqes.last().0);
        woken_by(m, cqes.drop_last()) + if m.submissions.contains_key(k) {
            seq![m.submissions[k]]
        } else {
            Seq::empty()
        }
    }
}

/// A drained batch of completions with distinct keys: each entry whose key
/// is pending wakes exactly the task that submitted it, in batch order, and
/// publishes its result; each other entry is discarded, leaving its key's
/// state as it was; keys outside the batch are untouched.
pub proof fn lemma_batch_reaches_submitters(m: IoModel, wakeups: Seq<u32>, cqes: Seq<(u64, i32)>)
    requires
        m.wf(),
        keys_distinct(cqes),
    ensures
        ({
            let (m2, w2) = m.deliver_all(wakeups, cqes);
            &&& w2 == wakeups + woken_by(m, cqes)
            &&& forall|i: int| 0 <= i < cqes.len() && m.submissions.contains_key(key_of(#[trigger] cqes[i].0)) ==> {
                &&& m2.completions.contains_key(key_of(cqes[i].0))
                &&& m2.completions[key_of(cqes[i].0)] == cqes[i].1
                &&& !m2.submissions.contains_key(key_of(cqes[i].0))
            }
            &&& forall|i: int| 0 <= i < cqes.len() && !m.submissions.contains_key(key_of(#[trigger] cqes[i].0)) ==> {
                &&& !m2.submissions.contains_key(key_of(cqes[i].0))
                &&& m2.completions.contains_key(key_of(cqes[i].0)) == m.completions.contains_key(key_of(cqes[i].0))
                &&& m.completions.contains_key(key_of(cqes[i].0)) ==> m2.completions[key_of(cqes[i].0)] == m.completions[key_of(cqes[i].0)]
            }
            &&& forall|k: u32| #[trigger] outside_batch(cqes, k) ==> {
                &&& m2.submissions.contains_key(k) == m.submissions.contains_key(k)
                &&& m.submissions.contains_key(k) ==> m2.submissions[k] == m.submissions[k]
                &&& m2.completions.contains_key(k) == m.completions.contains_key(k)
                &&& m.completions.contains_key(k) ==> m2.completions[k] == m.completions[k]
            }
        }),
    decreases cqes.len(),
{
    if cqes.len() > 0 {
        let p = cqes.drop_last();
        assert(keys_distinct(p)) by {
            assert forall|i: int, j: int| 0 <= i < j < p.len() implies key_of(#[trigger] p[i].0) != key_of(#[trigger] p[j].0) by {
                assert(p[i] == cqes[i] && p[j] == cqes[j]);
            }
        }
        lemma_batch_reaches_submitters(m, wakeups, p);
        let n = cqes.len() - 1;
        let k = key_of(cqes[n].0);
        assert forall|i: int| 0 <= i < p.len() implies key_of(#[trigger] p[i].0) != k by {
            assert(p[i] == cqes[i]);
        }
        assert(outside_batch(p, k));
        let (mp, wp) = m.deliver_all(wakeups, p);
        let (m2, w2) = m.deliver_all(wakeups, cqes);
        assert(cqes.last() == cqes[n]);
        assert(w2 == wakeups + woken_by(m, cqes)) by {
            assert(woken_by(m, cqes) == woken_by(m, p) + if m.submissions.contains_key(k) {
                seq![m.submissions[k]]
            } else {
                Seq::<u32>::empty()
            });
            if m.submissions.contains_key(k) {
                assert(wakeups + woken_by(m, p) + seq![m.submissions[k]] =~= wakeups + woken_by(m, cqes));
            } else {
                assert(wakeups + woken_by(m, p) =~= wakeups + woken_by(m, cqes));
            }
        }
        assert forall|i: int| 0 <= i < cqes.len() && m.submissions.contains_key(key_of(#[trigger] cqes[i].0)) implies {
            &&& m2.completions.contains_key(key_of(cqes[i].0))
            &&& m2.completions[key_of(cqes[i].0)] == cqes[i].1
            &&& !m2.submissions.contains_key(key_of(cqes[i].0))
        } by {
            if i < n {
                assert(p[i] == cqes[i]);
            }
        }
        assert forall|i: int| 0 <= i < cqes.len() && !m.submissions.contains_key(key_of(#[trigger] cqes[i].0)) implies {
            &&& !m2.submissions.contains_key(key_of(cqes[i].0))
            &&& m2.completions.contains_key(key_of(cqes[i].0)) == m.completions.contains_key(key_of(cqes[i].0))
            &&& m.completions.contains_key(key_of(cqes[i].0)) ==> m2.completions[key_of(cqes[i].0)] == m.completions[key_of(cqes[i].0)]
        } by {
            if i < n {
                assert(p[i] == cqes[i]);
                assert(key_of(cqes[i].0) != k);
            } else {
                assert(!mp.submissions.contains_key(k));
                assert(m2 == mp);
            }
        }
        assert forall|kk: u32| #[trigger] outside_batch(cqes, kk) implies {
            &&& m2.submissions.contains_key(kk) == m.submissions.contains_key(kk)
            &&& m.submissions.contains_key(kk) ==> m2.submissions[kk] == m.submissions[kk]
            &&& m2.completions.contains_key(kk) == m.completions.contains_key(kk)
            &&& m.completions.contains_key(kk) ==> m2.completions[kk] == m.completions[kk]
        } by {
            assert(key_of(cqes[n].0) != kk);
            assert forall|i: int| 0 <= i < p.len() implies key_of(#[trigger] p[i].0) != kk by {
                assert(p[i] == cqes[i]);
            }
            assert(outside_batch(p, kk));
            assert(mp.submissions.contains_key(kk) == m.submissions.contains_key(kk));
            assert(mp.completions.contains_key(kk) == m.completions.contains_key(kk));
        }
    } else {
        assert(wakeups + woken_by(m, cqes) =~= wakeups);
    }
}

/// No key is ever both pending and completed: every operation on the
/// registry keeps the two maps apart, and never tracks the reserved key.
pub proof fn lemma_pending_and_completed_stay_apart(
    m: IoModel,
    key: u32,
    task: u32,
    wakeups: Seq<u32>,
    cqes: Seq<(u64, i32)>,
)
    requires
        m.wf(),
    ensures
        forall|k: u32| !(#[trigger] m.submissions.contains_key(k) && m.completions.contains_key(k)),
        key != 0 ==> m.register(key, task).wf(),
        m.deliver_all(wakeups, cqes).0.wf(),
        m.take(key).0.wf(),
        m.cancel(key).0.wf(),
    decreases cqes.len(),
{
    if cqes.len() > 0 {
        lemma_pending_and_completed_stay_apart(m, key, task, wakeups, cqes.drop_last());
    }
}

/// Dropping a submitted operation whose completion has not arrived sends
/// exactly one cancellation: the key leaves the pending map at once, and a
/// second drop would find nothing to cancel.
pub proof fn lemma_drop_cancels_once(m: IoModel, key: u32)
    requires
        m.wf(),
        m.submissions.contains_key(key),
    ensures
        m.cancel(key).1,
        !m.cancel(key).0.submissions.contains_key(key),
        !m.cancel(key).0.cancel(key).1,
        m.cancel(key).0.completions == m.completions,
{
}

/// Awaiting a join handle yields exactly its task's output: once the task
/// finishes with `res`, the waiter (if any) is woken and taking the result
/// gives `res` and consumes the slot.
pub proof fn lemma_join_yields_output<T, R>(m: RuntimeModel<T, R>, res: R)
    requires
        m.wf(),
        m.slots.contains_key(m.current),
    ensures
        ({
            let id = m.current;
            let f = m.finish(res);
            &&& f.pop_result(id).1 == Some(res)
            &&& !f.pop_result(id).0.slots.contains_key(id)
            &&& m.slots[id].waiting_task is Some ==> f.wakeups == m.wakeups.push(m.slots[id].waiting_task->0)
        }),
{
}

/// Dropping a join handle before its task finishes discards the output: the
/// finish then changes nothing, and no slot holds the output.
pub proof fn lemma_dropped_handle_discards_output<T, R>(m: RuntimeModel<T, R>, res: R)
    requires
        m.wf(),
    ensures
        m.drop_handle(m.current).finish(res) == m.drop_handle(m.current),
        !m.drop_handle(m.current).finish(res).slots.contains_key(m.current),
{
}

/// A task that is spawned gets an empty join slot and is queued; a join
/// handle that waits on it is recorded as its single waiter.
pub proof fn lemma_spawn_then_wait<T, R>(m: RuntimeModel<T, R>, task: T, waiter: u32)
    requires
        m.wf(),
    ensures
        ({
            let s = m.spawn(task);
            let id = m.counter;
            let w = (RuntimeModel { current: waiter, ..s }).wait_on(id);
            &&& s.slots[id] == JoinSlot::<R> { result: None, waiting_task: None }
            &&& s.wakeups.last() == id
            &&& w.slots[id].waiting_task == Some(waiter)
            &&& w.pop_result(id).1 is None
        }),
{
}

/// After teardown nothing of the old run survives: the task table holds no
/// task and no join slot, only the root is ready, and a fresh registry
/// discards every completion handed to it, so no entry submitted before the
/// reset can wake a task afterwards.
pub proof fn lemma_teardown_forgets_old_operations<T, R>(wakeups: Seq<u32>, cqes: Seq<(u64, i32)>)
    ensures
        RuntimeModel::<T, R>::fresh().tasks.is_empty(),
        RuntimeModel::<T, R>::fresh().slots.is_empty(),
        RuntimeModel::<T, R>::fresh().wakeups == seq![0u32],
        IoModel::fresh().deliver_all(wakeups, cqes) == (IoModel::fresh(), wakeups),
    decreases cqes.len(),
{
    assert(RuntimeModel::<T, R>::fresh().tasks =~= Map::empty());
    assert(RuntimeModel::<T, R>::fresh().slots =~= Map::empty());
    if cqes.len() > 0 {
        lemma_teardown_forgets_old_operations::<T, R>(wakeups, cqes.drop_last());
    }
}

/// Setting up a ring succeeds exactly when the ring is created, keeps every
/// completion, can be probed, and supports every required opcode.
pub proof fn lemma_init_succeeds_iff_every_check_passes(s: InitSteps)
    requires
        answers_required_opcodes(s.answers),
    ensures
        init_verdict(s) is Ok <==> {
            &&& s.created is Ok
            &&& s.nodrop
            &&& s.probed is Ok
            &&& forall|i: int| 0 <= i < s.answers.len() ==> (#[trigger] s.answers[i]).1
        },
{
    if s.created is Ok && s.nodrop && s.probed is Ok {
        if forall|i: int| 0 <= i < s.answers.len() ==> (#[trigger] s.answers[i]).1 {
            assert forall|i: int| 0 <= i < supported_of(s.answers).len() implies #[trigger] supported_of(s.answers)[i] by {
                assert(s.answers[i].1);
            }
        } else {
            let i = choose|i: int| 0 <= i < s.answers.len() && !(#[trigger] s.answers[i]).1;
            assert(!supported_of(s.answers)[i]);
        }
    }
}

/// A kernel that supports every required opcode but Accept, on a ring that
/// was created, keeps every completion and could be probed, is refused with
/// `UnsupportedOpcode("Accept")`.
pub proof fn lemma_kernel_without_accept(s: InitSteps)
    requires
        answers_required_opcodes(s.answers),
        s.created is Ok,
        s.nodrop,
        s.probed is Ok,
        !s.answers[6].1,
        forall|i: int| 0 <= i < s.answers.len() && i != 6 ==> (#[trigger] s.answers[i]).1,
    ensures
        init_verdict(s) == Err::<(), UringError>(UringError::UnsupportedOpcode("Accept")),
{
    let sup = supported_of(s.answers);
    assert(!sup[6]);
    let c = choose|c: int| 0 <= c < sup.len() && !#[trigger] sup[c] && forall|j: int| 0 <= j < c ==> #[trigger] sup[j];
    assert(c == 6) by {
        if c != 6 {
            assert(s.answers[c].1);
        }
        if c > 6 {
            assert(sup[6]);
        }
    }
    assert(required_opcode_name(6) == "Accept");
}

/// Key and task-id counters wrap around without ever yielding `0`.
pub proof fn lemma_counter_wraps_past_zero(c: u32)
    ensures
        next_id(c) != 0,
        next_id(u32::MAX) == 1,
        c < u32::MAX ==> next_id(c) == c + 1,
{
}

} // verus!
