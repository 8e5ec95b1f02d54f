//! The worker pool's shared job queue. Jobs are delivered first-in first-out
//! and each dequeue removes the job it hands out, so a job is executed at
//! most once. The embedding program wraps one queue in a mutex and condition
//! variable; every worker holds only a handle to that shared queue.

use vstd::prelude::*;

verus! {

/// FIFO queue of pending jobs.
pub struct JobQueue<T> {
    items: Vec<T>,
}

impl<T> JobQueue<T> {
    /// The pending jobs, oldest first.
    pub closed spec fn jobs(&self) -> Seq<T> {
        self.items@
    }

    /// An empty queue.
    pub fn new() -> (q: Self)
        ensures
            q.jobs() == Seq::<T>::empty(),
    {
        JobQueue { items: Vec::new() }
    }

    /// Appends a job behind all already pending ones.
    pub fn enqueue(&mut self, job: T)
        ensures
            final(self).jobs() == old(self).jobs().push(job),
    {
        self.items.push(job);
    }

    /// Removes and returns the oldest pending job, if any.
    pub fn dequeue(&mut self) -> (r: Option<T>)
        ensures
            old(self).jobs().len() == 0 ==> r is None && final(self).jobs() == old(self).jobs(),
            old(self).jobs().len() > 0 ==> r == Some(old(self).jobs()[0]) && final(self).jobs()
                == old(self).jobs().drop_first(),
    {
        if self.items.len() == 0 {
            None
        } else {
            let job = self.items.remove(0);
            assert(self.items@ =~= old(self).jobs().drop_first());
            Some(job)
        }
    }

    /// How many jobs are pending.
    pub fn len(&self) -> (n: usize)
        ensures
            n == self.jobs().len(),
    {
        self.items.len()
    }

    /// Whether no job is pending.
    pub fn is_empty(&self) -> (r: bool)
        ensures
            r == (self.jobs().len() == 0),
    {
        self.items.len() == 0
    }
}

} // verus!
