use uring_rt::io_op::{IoOp, IoPoll};
use uring_rt::registry::IoRegistry;
use uring_rt::runtime::{Runtime, WokenTask};

fn child_of(w: Option<WokenTask<&'static str>>) -> &'static str {
    match w {
        Some(WokenTask::Child(t)) => t,
        Some(WokenTask::Root) => panic!("root woken"),
        None => panic!("nothing woken"),
    }
}

fn is_root(w: &Option<WokenTask<&'static str>>) -> bool {
    matches!(w, Some(WokenTask::Root))
}

#[test]
fn fresh_runtime_wakes_root_only() {
    let mut rt: Runtime<&'static str, u32> = Runtime::new();
    assert!(!rt.is_running());
    assert!(is_root(&rt.get_woken_task()));
    assert_eq!(rt.current_task(), 0);
    assert!(rt.get_woken_task().is_none());
}

#[test]
fn spawned_task_joined() {
    let mut rt: Runtime<&'static str, u32> = Runtime::new();
    let mut reg = IoRegistry::new();
    rt.start();
    assert!(is_root(&rt.get_woken_task()));
    let id = uring_rt::spawn(&mut rt, "child");
    assert_eq!(id, 1);
    // the root awaits the handle before the child ran
    assert_eq!(rt.pop_join_handle_result(id), None);
    rt.register_join_handle_wakeup(id);
    // the child starts its 10ms timeout and yields
    assert_eq!(child_of(rt.get_woken_task()), "child");
    assert_eq!(rt.current_task(), id);
    let mut timer = IoOp::new();
    let key = match timer.poll(&mut reg, rt.current_task()) {
        IoPoll::Submit(k) => k,
        other => panic!("unexpected {:?}", other),
    };
    rt.return_task("child");
    assert!(rt.get_woken_task().is_none());
    // the timeout fires
    rt.deliver_completions(&mut reg, &vec![(key as u64, -62)]);
    assert_eq!(child_of(rt.get_woken_task()), "child");
    assert_eq!(timer.poll(&mut reg, id), IoPoll::Ready(-62));
    rt.task_finished(42);
    // the root was woken by the finish and gets 42
    assert!(is_root(&rt.get_woken_task()));
    assert_eq!(rt.pop_join_handle_result(id), Some(42));
    let left = rt.reset();
    assert!(left.is_empty());
    assert!(!rt.is_running());
}

#[test]
fn result_ready_before_await() {
    let mut rt: Runtime<&'static str, u32> = Runtime::new();
    rt.start();
    assert!(is_root(&rt.get_woken_task()));
    let id = rt.spawn("child");
    assert_eq!(child_of(rt.get_woken_task()), "child");
    rt.task_finished(5);
    assert!(rt.get_woken_task().is_none());
    assert_eq!(rt.pop_join_handle_result(id), Some(5));
}

#[test]
fn dropped_join_result() {
    let mut rt: Runtime<&'static str, u32> = Runtime::new();
    rt.start();
    assert!(is_root(&rt.get_woken_task()));
    let id = rt.spawn("child");
    rt.drop_join_handle(id);
    assert_eq!(child_of(rt.get_woken_task()), "child");
    rt.task_finished(7);
    assert!(rt.get_woken_task().is_none());
    let left = rt.reset();
    assert!(left.is_empty());
}

#[test]
fn cancel_on_drop_at_teardown() {
    let mut rt: Runtime<&'static str, u32> = Runtime::new();
    let mut reg = IoRegistry::new();
    rt.start();
    assert!(is_root(&rt.get_woken_task()));
    let id = rt.spawn("reader");
    // the child starts a read that will not complete
    assert_eq!(child_of(rt.get_woken_task()), "reader");
    let mut read = IoOp::new();
    assert_eq!(read.poll(&mut reg, id), IoPoll::Submit(1));
    rt.return_task("reader");
    // the root drops the handle and returns
    rt.drop_join_handle(id);
    let left = rt.reset();
    assert_eq!(left.len(), 1);
    assert_eq!(left.get(&id), Some(&"reader"));
    // dropping the child drops its read, which is cancelled once
    assert_eq!(read.cancel_on_drop(&mut reg), Some(1));
    assert!(!reg.is_pending(1));
    assert!(is_root(&rt.get_woken_task()));
    assert!(rt.get_woken_task().is_none());
}

#[test]
fn stale_wakeups_are_skipped() {
    let mut rt: Runtime<&'static str, u32> = Runtime::new();
    rt.start();
    assert!(is_root(&rt.get_woken_task()));
    let a = rt.spawn("a");
    let b = rt.spawn("b");
    assert_eq!((a, b), (1, 2));
    // LIFO: b first
    assert_eq!(child_of(rt.get_woken_task()), "b");
    rt.task_finished(2);
    assert_eq!(child_of(rt.get_woken_task()), "a");
    rt.return_task("a");
    assert!(rt.get_woken_task().is_none());
}

#[test]
fn finished_task_wakes_its_waiter() {
    let mut rt: Runtime<&'static str, u32> = Runtime::new();
    rt.start();
    assert!(is_root(&rt.get_woken_task()));
    let a = rt.spawn("a");
    let b = rt.spawn("b");
    // b waits on a
    assert_eq!(child_of(rt.get_woken_task()), "b");
    assert_eq!(rt.pop_join_handle_result(a), None);
    rt.register_join_handle_wakeup(a);
    rt.return_task("b");
    assert_eq!(child_of(rt.get_woken_task()), "a");
    rt.task_finished(11);
    assert_eq!(child_of(rt.get_woken_task()), "b");
    assert_eq!(rt.pop_join_handle_result(a), Some(11));
    rt.task_finished(12);
    assert!(rt.get_woken_task().is_none());
    assert_eq!(rt.pop_join_handle_result(b), Some(12));
}
