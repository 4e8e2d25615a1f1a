use vstd::prelude::*;

use std::collections::VecDeque;
use std::sync::atomic::{AtomicIsize, Ordering};
use std::sync::Arc;

verus! {

/// Number of ticks a task may run before it yields its turn.
pub const MAX_TIME_SLICE: isize = 5;

/// A task as the FIFO scheduler holds it: the inner task and its remaining time slice.
pub struct FifoTask<T> {
    inner: T,
    time_slice: AtomicIsize,
}

/// Relies on `Arc::ptr_eq`: whether two handles point to the same task. Nothing is
/// claimed of the answer; the callers' contracts hold whatever it is.
#[verifier::external_body]
fn same_task<T>(a: &Arc<FifoTask<T>>, b: &Arc<FifoTask<T>>) -> (r: bool) {
    Arc::ptr_eq(a, b)
}

impl<T> FifoTask<T> {
    /// The inner task.
    pub closed spec fn spec_inner(&self) -> T {
        self.inner
    }

    /// Wraps `inner` with a full time slice.
    pub fn new(inner: T) -> (r: Self)
        ensures
            r.spec_inner() == inner,
    {
        FifoTask { inner, time_slice: AtomicIsize::new(MAX_TIME_SLICE) }
    }

    fn time_slice(&self) -> isize {
        self.time_slice.load(Ordering::Acquire)
    }

    /// Takes one tick off the time slice; true when the slice is used up.
    fn tick_time_slice(&self) -> bool {
        let val = self.time_slice.fetch_sub(1, Ordering::Release);
        val <= 1
    }

    fn reset_time_slice(&self) {
        self.time_slice.store(MAX_TIME_SLICE, Ordering::Release);
    }

    /// The inner task.
    pub fn inner(&self) -> (r: &T)
        ensures
            *r == self.spec_inner(),
    {
        &self.inner
    }
}

/// A cooperative first-in, first-out scheduler: tasks join at the back of the
/// ready queue and run from its front.
pub struct FifoScheduler<T> {
    ready_queue: VecDeque<Arc<FifoTask<T>>>,
}

impl<T> FifoScheduler<T> {
    /// The ready queue, front first.
    pub closed spec fn queue(&self) -> Seq<Arc<FifoTask<T>>> {
        self.ready_queue@
    }

    /// Creates a scheduler with an empty ready queue.
    pub fn new() -> (r: Self)
        ensures
            r.queue() == Seq::<Arc<FifoTask<T>>>::empty(),
    {
        FifoScheduler { ready_queue: VecDeque::new() }
    }

    /// The scheduler's name.
    pub fn scheduler_name() -> (r: &'static str)
        ensures
            r@ == "FIFO-preempt"@,
    {
        "FIFO-preempt"
    }

    /// Prepares the scheduler; a FIFO queue needs nothing.
    pub fn init(&mut self)
        ensures
            *final(self) == *old(self),
    {
    }

    /// Appends `task` to the back of the ready queue.
    pub fn add_task(&mut self, task: Arc<FifoTask<T>>)
        ensures
            final(self).queue() == old(self).queue().push(task),
    {
        self.ready_queue.push_back(task);
    }

    /// Takes `task` out of the ready queue: the first queued handle to the same
    /// task, if there is one.
    pub fn remove_task(&mut self, task: &Arc<FifoTask<T>>) -> (r: Option<Arc<FifoTask<T>>>)
        ensures
            r is None ==> final(self).queue() == old(self).queue(),
            r is Some ==> exists|i: int|
                0 <= i < old(self).queue().len() && r == Some(old(self).queue()[i])
                    && final(self).queue() == old(self).queue().remove(i),
    {
        let mut i: usize = 0;
        while i < self.ready_queue.len()
            invariant
                0 <= i <= self.ready_queue@.len(),
                self.ready_queue@ == old(self).ready_queue@,
            decreases self.ready_queue@.len() - i,
        {
            if same_task(&self.ready_queue[i], task) {
                let r = self.ready_queue.remove(i);
                assert(0 <= i < old(self).queue().len() && r == Some(old(self).queue()[i as int])
                    && self.queue() == old(self).queue().remove(i as int));
                return r;
            }
            i = i + 1;
        }
        None
    }

    /// Takes the task at the front of the ready queue.
    pub fn pick_next_task(&mut self) -> (r: Option<Arc<FifoTask<T>>>)
        ensures
            old(self).queue().len() == 0 ==> r is None && final(self).queue() == old(self).queue(),
            old(self).queue().len() > 0 ==> r == Some(old(self).queue()[0]) && final(self).queue()
                == old(self).queue().drop_first(),
    {
        self.ready_queue.pop_front()
    }

    /// Puts back the task that ran last: at the front when it was preempted with
    /// time left, else at the back with a fresh time slice.
    pub fn put_prev_task(&mut self, prev: Arc<FifoTask<T>>, preempt: bool)
        ensures
            !preempt ==> final(self).queue() == old(self).queue().push(prev),
            preempt ==> final(self).queue() == old(self).queue().push(prev) || final(self).queue()
                == seq![prev] + old(self).queue(),
    {
        if prev.time_slice() > 0 && preempt {
            self.ready_queue.push_front(prev);
        } else {
            prev.reset_time_slice();
            self.ready_queue.push_back(prev);
        }
    }

    /// Counts a timer tick against the running task; true when its time slice is
    /// used up and it should yield.
    pub fn task_tick(&mut self, current: &Arc<FifoTask<T>>) -> (r: bool)
        ensures
            final(self).queue() == old(self).queue(),
    {
        current.tick_time_slice()
    }

    /// Priorities do not apply to a FIFO queue: always false.
    pub fn set_priority(&mut self, _task: &Arc<FifoTask<T>>, _prio: isize) -> (r: bool)
        ensures
            !r,
            *final(self) == *old(self),
    {
        false
    }
}

} // verus!
