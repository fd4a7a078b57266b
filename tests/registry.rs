use uring_rt::io_op::{IoOp, IoPoll, OpState};
use uring_rt::key::{advance_id, IoKey, TaskId};
use uring_rt::registry::IoRegistry;

#[test]
fn keys_start_at_one_and_advance() {
    let mut reg = IoRegistry::new();
    assert_eq!(reg.new_io_key(), 1);
    assert_eq!(reg.new_io_key(), 2);
    assert_eq!(reg.new_io_key(), 3);
}

#[test]
fn counter_wrap_skips_zero() {
    assert_eq!(advance_id(u32::MAX), 1);
    assert_eq!(advance_id(0), 1);
    assert_eq!(advance_id(41), 42);
    assert_eq!(advance_id(u32::MAX - 1), u32::MAX);
}

#[test]
fn ids_convert_from_u32() {
    assert_eq!(IoKey::from(7u32).inner, 7);
    assert_eq!(TaskId::from(9u32).inner, 9);
    assert_eq!(IoKey::from(3u32), IoKey { inner: 3 });
}

#[test]
fn completion_goes_to_submitting_task() {
    let mut reg = IoRegistry::new();
    let k1 = reg.begin_io(4);
    let k2 = reg.begin_io(9);
    assert_eq!((k1, k2), (1, 2));
    let mut wakeups: Vec<u32> = Vec::new();
    reg.deliver(k2 as u64, 17, &mut wakeups);
    assert_eq!(wakeups, vec![9]);
    assert!(!reg.is_pending(k2));
    assert!(reg.has_completion(k2));
    assert!(reg.is_pending(k1));
    assert_eq!(reg.take_completion(k2), Some(17));
    assert_eq!(reg.take_completion(k2), None);
    assert_eq!(reg.pending_task(k1), Some(4));
}

#[test]
fn close_completion_is_discarded() {
    let mut reg = IoRegistry::new();
    let k = reg.begin_io(3);
    let mut wakeups: Vec<u32> = Vec::new();
    reg.deliver(0, 0, &mut wakeups);
    assert!(wakeups.is_empty());
    assert!(!reg.has_completion(0));
    assert!(reg.is_pending(k));
}

#[test]
fn batch_is_delivered_in_order() {
    let mut reg = IoRegistry::new();
    let a = reg.begin_io(10);
    let b = reg.begin_io(20);
    let c = reg.begin_io(30);
    let mut wakeups: Vec<u32> = vec![0];
    let cqes: Vec<(u64, i32)> = vec![(c as u64, -11), (0, 0), (a as u64, 5), (99, 1), (b as u64, 0)];
    reg.deliver_completions(&cqes, &mut wakeups);
    assert_eq!(wakeups, vec![0, 30, 10, 20]);
    assert_eq!(reg.take_completion(a), Some(5));
    assert_eq!(reg.take_completion(b), Some(0));
    assert_eq!(reg.take_completion(c), Some(-11));
    assert!(!reg.has_completion(99));
}

#[test]
fn cancel_only_while_pending() {
    let mut reg = IoRegistry::new();
    let k = reg.begin_io(2);
    assert!(reg.cancel(k));
    assert!(!reg.cancel(k));
    let mut wakeups: Vec<u32> = Vec::new();
    reg.deliver(k as u64, 0, &mut wakeups);
    assert!(wakeups.is_empty());
    assert!(!reg.has_completion(k));
}

#[test]
fn io_op_submits_then_completes() {
    let mut reg = IoRegistry::new();
    let mut op = IoOp::new();
    assert_eq!(op.state, OpState::NotSubmitted);
    assert_eq!(op.poll(&mut reg, 5), IoPoll::Submit(1));
    assert_eq!(op.state, OpState::Submitted(1));
    assert_eq!(reg.pending_task(1), Some(5));
    assert_eq!(op.poll(&mut reg, 5), IoPoll::Pending);
    let mut wakeups: Vec<u32> = Vec::new();
    reg.deliver(1, 1024, &mut wakeups);
    assert_eq!(wakeups, vec![5]);
    assert_eq!(op.poll(&mut reg, 5), IoPoll::Ready(1024));
    assert_eq!(op.state, OpState::Done);
    assert_eq!(op.cancel_on_drop(&mut reg), None);
}

#[test]
fn dropping_submitted_op_cancels_once() {
    let mut reg = IoRegistry::new();
    let mut op = IoOp::new();
    assert_eq!(op.poll(&mut reg, 1), IoPoll::Submit(1));
    assert_eq!(op.cancel_on_drop(&mut reg), Some(1));
    assert!(!reg.is_pending(1));
    assert_eq!(op.cancel_on_drop(&mut reg), None);
    let mut wakeups: Vec<u32> = Vec::new();
    reg.deliver(1, -125, &mut wakeups);
    assert!(wakeups.is_empty());
}

#[test]
fn dropping_op_after_completion_sends_no_cancel() {
    let mut reg = IoRegistry::new();
    let mut op = IoOp::new();
    assert_eq!(op.poll(&mut reg, 1), IoPoll::Submit(1));
    let mut wakeups: Vec<u32> = Vec::new();
    reg.deliver(1, 3, &mut wakeups);
    assert_eq!(op.cancel_on_drop(&mut reg), None);
}

#[test]
fn unsubmitted_op_drop_does_nothing() {
    let mut reg = IoRegistry::new();
    let op = IoOp::new();
    assert_eq!(op.cancel_on_drop(&mut reg), None);
    assert_eq!(reg.new_io_key(), 1);
}

#[test]
fn many_submissions_are_all_tracked() {
    let mut reg = IoRegistry::new();
    let mut keys: Vec<u32> = Vec::new();
    for t in 0..300u32 {
        keys.push(reg.begin_io(t + 1));
    }
    let cqes: Vec<(u64, i32)> = keys.iter().map(|k| (*k as u64, 0)).collect();
    let mut wakeups: Vec<u32> = Vec::new();
    reg.deliver_completions(&cqes, &mut wakeups);
    assert_eq!(wakeups.len(), 300);
    assert_eq!(wakeups, (1..=300u32).collect::<Vec<u32>>());
}

#[test]
fn fresh_registry_discards_old_completions() {
    let mut old = IoRegistry::new();
    let k = old.begin_io(6);
    let mut fresh = IoRegistry::new();
    let mut wakeups: Vec<u32> = vec![0];
    fresh.deliver_completions(&vec![(k as u64, 0), (7, -4)], &mut wakeups);
    assert_eq!(wakeups, vec![0]);
    assert!(!fresh.has_completion(k));
    assert_eq!(fresh.new_io_key(), 1);
}
