//! The pool of background tasks.

use vstd::prelude::*;
use core::future::Future;

verus! {

/// The tasks submitted to run in the background, in submission order. A task
/// leaves the pool only once it has been driven to completion; nothing here
/// drives them, so the pool keeps every task it was given.
pub struct SmoltcpExecutor<T> {
    pool: Vec<T>,
}

impl<T> View for SmoltcpExecutor<T> {
    type V = Seq<T>;

    /// The pending tasks, oldest first.
    closed spec fn view(&self) -> Seq<T> {
        self.pool@
    }
}

impl<T> SmoltcpExecutor<T> {
    /// An empty pool.
    pub fn new() -> (r: SmoltcpExecutor<T>)
        ensures
            r@ == Seq::<T>::empty(),
    {
        SmoltcpExecutor { pool: Vec::new() }
    }

    /// Appends a task behind those already pending.
    pub fn spawn_obj(&mut self, future: T)
        ensures
            final(self)@ == old(self)@.push(future),
    {
        self.pool.push(future);
    }

    /// The `i`-th pending task, counted from the oldest.
    pub fn get(&self, i: usize) -> (r: &T)
        requires
            i < self@.len(),
        ensures
            *r == self@[i as int],
    {
        &self.pool[i]
    }

    /// How many tasks are pending.
    pub fn len(&self) -> (r: usize)
        ensures
            r == self@.len(),
    {
        self.pool.len()
    }
}

/// Submits a background task to the pool. It returns at once and does not
/// drive the task.
pub fn spawn<F: Future<Output = ()> + Send + 'static>(executor: &mut SmoltcpExecutor<F>, f: F)
    ensures
        final(executor)@ == old(executor)@.push(f),
{
    executor.spawn_obj(f)
}

/// Submission order is kept: after submitting `a` and then `b`, the pool holds
/// what it held, then `a`, then `b`.
pub proof fn lemma_submission_order<T>(before: Seq<T>, a: T, b: T)
    ensures
        before.push(a).push(b) == before + seq![a, b],
        before.push(a).push(b).len() == before.len() + 2,
        before.push(a).push(b)[before.len() as int] == a,
        before.push(a).push(b)[before.len() + 1int] == b,
{
    assert(before.push(a).push(b) =~= before + seq![a, b]);
}

} // verus!
