use std::sync::atomic::{AtomicUsize, Ordering};
use std::sync::Arc;

use futures::executor::{spawn, Notify, NotifyHandle};
use futures::future::lazy;
use futures::task::{current, Task};
use futures::Async;

use watched_futures::progress::Progress;
use watched_futures::promises::{FinishError, PollError, Promise};
use watched_futures::watched_variables::WatchedVariable;

struct WakeCounter(AtomicUsize);

impl Notify for WakeCounter {
    fn notify(&self, _id: usize) {
        self.0.fetch_add(1, Ordering::SeqCst);
    }
}

/// A task whose wake-ups are counted.
fn counted_task() -> (Task, Arc<WakeCounter>) {
    let counter = Arc::new(WakeCounter(AtomicUsize::new(0)));
    let handle: NotifyHandle = counter.clone().into();
    let mut probe = spawn(lazy(|| Ok::<Task, ()>(current())));
    match probe.poll_future_notify(&handle, 0) {
        Ok(Async::Ready(task)) => (task, counter),
        _ => panic!("the probe future finishes on its first poll"),
    }
}

fn wakes(counter: &Arc<WakeCounter>) -> usize {
    counter.0.load(Ordering::SeqCst)
}

#[test]
fn scenario_mutation_then_drop_ends_stream() {
    let (task, _counter) = counted_task();
    let owner = WatchedVariable::from(0i32);
    let mut w = owner.get_watcher();
    // the initial value is delivered first
    assert!(matches!(w.poll(task.clone()).0, Progress::Ready(Some(0))));
    assert!(matches!(w.poll(task.clone()).0, Progress::Pending));
    {
        let mut acc = owner.lock();
        *acc.get_mut() = 5;
    }
    assert!(matches!(w.poll(task.clone()).0, Progress::Ready(Some(5))));
    drop(owner);
    assert!(matches!(w.poll(task.clone()).0, Progress::Ready(None)));
    assert!(matches!(w.poll(task).0, Progress::Ready(None)));
}

#[test]
fn scenario_resolve_then_poll_twice() {
    let (task, _counter) = counted_task();
    let p: Promise<i32> = Promise::new();
    let mut h = p.get_handle();
    assert!(matches!(h.poll(task.clone()).0, Ok(Progress::Pending)));
    assert!(p.resolve(42).0.is_ok());
    assert!(matches!(h.poll(task.clone()).0, Ok(Progress::Ready(42))));
    assert!(matches!(h.poll(task).0, Err(PollError::ValueConsumed)));
}

#[test]
fn scenario_dropped_promise_rejects() {
    let (task, _counter) = counted_task();
    let p: Promise<i32> = Promise::new();
    let mut h = p.get_handle();
    drop(p);
    match h.poll(task).0 {
        Err(PollError::Rejected(reason)) => assert_eq!(reason, "Promise Dropped"),
        _ => panic!("an abandoned promise is rejected"),
    }
}

#[test]
fn resolved_value_delivered_once_for_many_values() {
    for v in [i64::MIN, -1, 0, 1, 7, i64::MAX] {
        let (task, _counter) = counted_task();
        let p = Promise::new();
        let mut h = p.get_handle();
        assert!(p.resolve(v).0.is_ok());
        match h.poll(task.clone()).0 {
            Ok(Progress::Ready(got)) => assert_eq!(got, v),
            _ => panic!("the resolved value comes out first"),
        }
        for _ in 0..3 {
            assert!(matches!(h.poll(task.clone()).0, Err(PollError::ValueConsumed)));
        }
    }
}

#[test]
fn second_resolve_or_reject_is_an_error() {
    let (task, _counter) = counted_task();
    let p = Promise::new();
    let mut h = p.get_handle();
    assert!(p.resolve(String::from("first")).0.is_ok());
    assert!(matches!(p.resolve(String::from("second")).0, Err(FinishError::AlreadyFinished)));
    assert!(matches!(p.reject(String::from("late")).0, Err(FinishError::AlreadyFinished)));
    match h.poll(task).0 {
        Ok(Progress::Ready(s)) => assert_eq!(s, "first"),
        _ => panic!("the first outcome stays"),
    }
}

#[test]
fn reject_reports_reason_on_every_poll() {
    let (task, _counter) = counted_task();
    let p: Promise<u8> = Promise::new();
    let mut h = p.get_handle();
    assert!(p.reject(String::from("no luck")).0.is_ok());
    assert!(matches!(p.resolve(3).0, Err(FinishError::AlreadyFinished)));
    drop(p);
    for _ in 0..2 {
        match h.poll(task.clone()).0 {
            Err(PollError::Rejected(reason)) => assert_eq!(reason, "no luck"),
            _ => panic!("the rejection stays"),
        }
    }
}

#[test]
fn dropping_resolved_promise_keeps_value() {
    let (task, _counter) = counted_task();
    let p = Promise::new();
    let mut h = p.get_handle();
    assert!(p.resolve(9u32).0.is_ok());
    drop(p);
    assert!(matches!(h.poll(task).0, Ok(Progress::Ready(9))));
}

#[test]
fn pending_handle_is_woken_by_resolve() {
    let (task, counter) = counted_task();
    let p = Promise::new();
    let mut h = p.get_handle();
    assert!(matches!(h.poll(task.clone()).0, Ok(Progress::Pending)));
    assert_eq!(wakes(&counter), 0);
    assert!(p.resolve(1u8).0.is_ok());
    assert_eq!(wakes(&counter), 1);
    assert!(matches!(h.poll(task).0, Ok(Progress::Ready(1))));
}

#[test]
fn pending_handle_is_woken_by_abandonment() {
    let (task, counter) = counted_task();
    let p: Promise<u8> = Promise::new();
    let mut h = p.get_handle();
    assert!(matches!(h.poll(task.clone()).0, Ok(Progress::Pending)));
    drop(p);
    assert_eq!(wakes(&counter), 1);
    assert!(matches!(h.poll(task).0, Err(PollError::Rejected(_))));
}

#[test]
fn cloned_handle_sees_same_outcome() {
    let (task, _counter) = counted_task();
    let p = Promise::new();
    let mut h1 = p.get_handle();
    let mut h2 = h1.clone();
    assert!(p.resolve(5u16).0.is_ok());
    assert!(matches!(h2.poll(task.clone()).0, Ok(Progress::Ready(5))));
    assert!(matches!(h1.poll(task).0, Err(PollError::ValueConsumed)));
}

#[test]
fn read_only_access_delivers_nothing() {
    let (task, counter) = counted_task();
    let owner = WatchedVariable::from(3u32);
    let mut w = owner.get_watcher();
    assert!(matches!(w.poll(task.clone()).0, Progress::Ready(Some(3))));
    {
        let acc = owner.lock();
        assert_eq!(*acc.get(), 3);
    }
    // the release wakes the watcher, but nothing is delivered
    assert_eq!(wakes(&counter), 1);
    assert!(matches!(w.poll(task).0, Progress::Pending));
}

#[test]
fn mutation_wakes_registered_watcher() {
    let (task, counter) = counted_task();
    let owner = WatchedVariable::from(vec![1u8]);
    let mut w = owner.get_watcher();
    assert!(matches!(w.poll(task.clone()).0, Progress::Ready(Some(_))));
    assert!(matches!(w.poll(task.clone()).0, Progress::Pending));
    {
        let mut acc = owner.lock();
        acc.get_mut().push(2);
        assert_eq!(wakes(&counter), 0);
    }
    assert_eq!(wakes(&counter), 1);
    match w.poll(task.clone()).0 {
        Progress::Ready(Some(v)) => assert_eq!(v, vec![1u8, 2]),
        _ => panic!("the mutated value is delivered"),
    }
    assert!(matches!(w.poll(task).0, Progress::Pending));
}

#[test]
fn clones_keep_stream_open_until_last_drop() {
    let (task, counter) = counted_task();
    let owner = WatchedVariable::from(1i32);
    let mut w = owner.get_watcher();
    assert!(matches!(w.poll(task.clone()).0, Progress::Ready(Some(1))));
    let n = 4;
    let mut clones = Vec::new();
    for _ in 0..n {
        clones.push(owner.clone());
    }
    drop(owner);
    for _ in 0..n - 1 {
        clones.pop();
        assert!(matches!(w.poll(task.clone()).0, Progress::Pending));
    }
    assert_eq!(wakes(&counter), 0);
    clones.pop();
    assert_eq!(wakes(&counter), 1);
    for _ in 0..3 {
        assert!(matches!(w.poll(task.clone()).0, Progress::Ready(None)));
    }
}

#[test]
fn force_ready_delivers_current_value() {
    let (task, counter) = counted_task();
    let owner = WatchedVariable::from(8u64);
    let mut w = owner.get_watcher();
    assert!(matches!(w.poll(task.clone()).0, Progress::Ready(Some(8))));
    assert!(matches!(w.poll(task.clone()).0, Progress::Pending));
    owner.force_ready();
    assert_eq!(wakes(&counter), 1);
    assert!(matches!(w.poll(task.clone()).0, Progress::Ready(Some(8))));
    assert!(matches!(w.poll(task).0, Progress::Pending));
}

#[test]
fn initial_value_changed_before_first_poll() {
    let (task, _counter) = counted_task();
    let owner = WatchedVariable::from(String::from("a"));
    let mut w = owner.get_watcher();
    {
        let mut acc = owner.lock();
        acc.get_mut().push('b');
    }
    match w.poll(task).0 {
        Progress::Ready(Some(s)) => assert_eq!(s, "ab"),
        _ => panic!("the changed value is delivered"),
    }
}

#[test]
fn owner_clone_and_drop_do_not_wait_for_accessor() {
    let (task, _counter) = counted_task();
    let a = WatchedVariable::from(2u8);
    let mut w = a.get_watcher();
    let b = a.clone();
    {
        let mut acc = a.lock();
        let c = a.clone();
        drop(b);
        drop(c);
        *acc.get_mut() = 4;
    }
    assert!(matches!(w.poll(task.clone()).0, Progress::Ready(Some(4))));
    drop(a);
    assert!(matches!(w.poll(task).0, Progress::Ready(None)));
}

#[test]
fn watcher_poll_does_not_wait_for_accessor() {
    let (task, counter) = counted_task();
    let owner = WatchedVariable::from(1u8);
    let mut w = owner.get_watcher();
    {
        let mut acc = owner.lock();
        *acc.get_mut() = 2;
        // the lock is held on this very thread: the poll reports pending at once
        assert!(matches!(w.poll(task.clone()).0, Progress::Pending));
        assert_eq!(wakes(&counter), 0);
    }
    assert_eq!(wakes(&counter), 1);
    assert!(matches!(w.poll(task).0, Progress::Ready(Some(2))));
}

#[test]
fn force_ready_while_locked_does_not_wait() {
    let (task, _counter) = counted_task();
    let owner = WatchedVariable::from(3u8);
    let mut w = owner.get_watcher();
    assert!(matches!(w.poll(task.clone()).0, Progress::Ready(Some(3))));
    {
        let acc = owner.lock();
        owner.force_ready();
        assert_eq!(*acc.get(), 3);
    }
    assert!(matches!(w.poll(task.clone()).0, Progress::Ready(Some(3))));
    assert!(matches!(w.poll(task).0, Progress::Pending));
}

#[test]
fn dropping_finished_promise_does_not_wake() {
    let (task, counter) = counted_task();
    let p = Promise::new();
    let mut h = p.get_handle();
    assert!(matches!(h.poll(task.clone()).0, Ok(Progress::Pending)));
    assert!(p.resolve(7u8).0.is_ok());
    assert_eq!(wakes(&counter), 1);
    drop(p);
    assert_eq!(wakes(&counter), 1);
    assert!(matches!(h.poll(task).0, Ok(Progress::Ready(7))));
}
