use std::sync::Arc;

use allocator::fifo::{FifoScheduler, FifoTask};

#[test]
fn fifo_order() {
    let mut s = FifoScheduler::<u32>::new();
    let a = Arc::new(FifoTask::new(1));
    let b = Arc::new(FifoTask::new(2));
    s.add_task(a.clone());
    s.add_task(b.clone());
    assert_eq!(*s.pick_next_task().unwrap().inner(), 1);
    assert_eq!(*s.pick_next_task().unwrap().inner(), 2);
    assert!(s.pick_next_task().is_none());
}

#[test]
fn remove_by_identity() {
    let mut s = FifoScheduler::<u32>::new();
    let a = Arc::new(FifoTask::new(7));
    let b = Arc::new(FifoTask::new(7));
    s.add_task(a.clone());
    s.add_task(b.clone());
    let removed = s.remove_task(&b).unwrap();
    assert!(Arc::ptr_eq(&removed, &b));
    assert!(s.remove_task(&b).is_none());
    assert!(Arc::ptr_eq(&s.pick_next_task().unwrap(), &a));
}

#[test]
fn preempted_task_goes_first() {
    let mut s = FifoScheduler::<u32>::new();
    let a = Arc::new(FifoTask::new(1));
    let b = Arc::new(FifoTask::new(2));
    s.add_task(a.clone());
    s.put_prev_task(b.clone(), true);
    assert_eq!(*s.pick_next_task().unwrap().inner(), 2);
    s.put_prev_task(b.clone(), false);
    assert_eq!(*s.pick_next_task().unwrap().inner(), 1);
}

#[test]
fn time_slice_runs_out() {
    let mut s = FifoScheduler::<u32>::new();
    let a = Arc::new(FifoTask::new(1));
    let b = Arc::new(FifoTask::new(2));
    for _ in 0..4 {
        assert!(!s.task_tick(&a));
    }
    assert!(s.task_tick(&a));
    s.add_task(b.clone());
    s.put_prev_task(a.clone(), true);
    // no time left: back of the queue, with a fresh slice
    assert_eq!(*s.pick_next_task().unwrap().inner(), 2);
    assert!(!s.task_tick(&a));
    assert!(!s.set_priority(&a, 3));
    assert_eq!(FifoScheduler::<u32>::scheduler_name(), "FIFO-preempt");
}
