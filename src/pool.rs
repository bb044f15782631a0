//! A fixed set of workers that drain one job source, and an executor that
//! owns a queue together with the pool that drains it.
//!
//! Starting a thread is left to the caller: it hands in a function that
//! starts one worker on a job source and returns the worker's handle. The
//! handle joins its thread when dropped.
use crate::queue_state::ClosedSyncQueueError;
use crate::sync_queue::spmc::{Receiver, Sender};
use crate::sync_queue::SyncQueue;
use std::collections::VecDeque;
use std::sync::Arc;
use vstd::prelude::*;

verus! {

/// The number of workers when the machine's parallelism is unknown.
pub const DEFAULT_NUM_THREADS: usize = 4;

/// The number of workers: the detected parallelism when there is one, else
/// the default.
pub open spec fn worker_count_spec(detected: Option<usize>) -> usize {
    match detected {
        Some(n) => if n > 0 {
            n
        } else {
            DEFAULT_NUM_THREADS
        },
        None => DEFAULT_NUM_THREADS,
    }
}

pub fn worker_count(detected: Option<usize>) -> (r: usize)
    ensures
        r == worker_count_spec(detected),
        r > 0,
{
    match detected {
        Some(n) if n > 0 => n,
        _ => DEFAULT_NUM_THREADS,
    }
}

/// Whether `h` is what one call of `spawn` returned on a copy of `queue`.
pub open spec fn started_by<Q: Clone, H, S: Fn(Q) -> H>(queue: Q, spawn: S, h: H) -> bool {
    exists|q: Q| cloned(queue, q) && spawn.ensures((q,), h)
}

/// Workers that each drain their own copy of one job source.
pub struct ThreadPool<H> {
    threads: Vec<H>,
}

impl<H> ThreadPool<H> {
    /// The handles of the workers, in the order they were started.
    pub closed spec fn workers(&self) -> Seq<H> {
        self.threads@
    }

    /// Starts as many workers as `detected` asks for (the default when it is
    /// unknown), each by one call of `spawn` on a copy of `queue`.
    pub fn from_jobs_iter<Q: Clone, S: Fn(Q) -> H>(queue: Q, detected: Option<usize>, spawn: S) -> (r: Self)
        requires
            forall|q: Q| #[trigger] spawn.requires((q,)),
        ensures
            r.workers().len() == worker_count_spec(detected),
            forall|i: int| 0 <= i < r.workers().len() ==> started_by(queue, spawn, #[trigger] r.workers()[i]),
    {
        let num_threads = worker_count(detected);
        let mut threads: Vec<H> = Vec::with_capacity(num_threads);
        let mut k: usize = 0;
        while k < num_threads
            invariant
                k <= num_threads,
                threads@.len() == k,
                forall|q: Q| #[trigger] spawn.requires((q,)),
                forall|i: int| 0 <= i < threads@.len() ==> started_by(queue, spawn, #[trigger] threads@[i]),
            decreases num_threads - k,
        {
            let copy = queue.clone();
            let ghost given = copy;
            assert(cloned(queue, given));
            let handle = spawn(copy);
            assert(started_by(queue, spawn, handle));
            threads.push(handle);
            k = k + 1;
        }
        ThreadPool { threads }
    }

    /// The handles of the workers, in the order they were started.
    pub fn into_workers(self) -> (r: Vec<H>)
        ensures
            r@ == self.workers(),
    {
        self.threads
    }

    /// Whether every worker has finished, as `finished` tells of each
    /// handle.
    pub fn is_finished<P: Fn(&H) -> bool>(&self, finished: P) -> (r: bool)
        requires
            forall|h: &H| #[trigger] finished.requires((h,)),
        ensures
            r ==> forall|i: int|
                0 <= i < self.workers().len() ==> #[trigger] finished.ensures(
                    (&self.workers()[i],),
                    true,
                ),
            !r ==> exists|i: int|
                0 <= i < self.workers().len() && #[trigger] finished.ensures(
                    (&self.workers()[i],),
                    false,
                ),
    {
        let mut k: usize = 0;
        while k < self.threads.len()
            invariant
                k <= self.threads@.len(),
                forall|h: &H| #[trigger] finished.requires((h,)),
                forall|i: int|
                    0 <= i < k ==> #[trigger] finished.ensures((&self.threads@[i],), true),
            decreases self.threads@.len() - k,
        {
            let done = finished(&self.threads[k]);
            if !done {
                assert(finished.ensures((&self.workers()[k as int],), false));
                return false;
            }
            k = k + 1;
        }
        true
    }
}

/// A queue of jobs, the sending end that feeds it, and once started the pool
/// that drains it.
///
/// Closing the queue is what lets the workers stop: a holder closes it
/// before the pool is dropped, since dropping the pool waits for every
/// worker.
#[verifier::reject_recursive_types(F)]
pub struct Executor<F, H> {
    sender: Sender<F, Arc<SyncQueue<F>>>,
    threads: Option<ThreadPool<H>>,
}

impl<F, H> Executor<F, H> {
    pub closed spec fn sender_spec(&self) -> Sender<F, Arc<SyncQueue<F>>> {
        self.sender
    }

    /// The workers once started.
    pub closed spec fn pool(&self) -> Option<Seq<H>> {
        match self.threads {
            Some(p) => Some(p.workers()),
            None => None,
        }
    }

    /// An executor with a fresh queue and no workers yet.
    pub fn unresumed() -> (r: Self)
        ensures
            r.pool() is None,
    {
        Executor {
            sender: Sender::from_queue(Arc::new(SyncQueue::new())),
            threads: None,
        }
    }

    pub fn is_started(&self) -> (r: bool)
        ensures
            r == self.pool() is Some,
    {
        self.threads.is_some()
    }

    /// Starts the workers on the executor's own queue, each by one call of
    /// `spawn` on a copy of one receiving end whose handle is a copy of the
    /// sender's; does nothing when they run already.
    pub fn start<S: Fn(Receiver<F, Arc<SyncQueue<F>>>) -> H>(&mut self, detected: Option<usize>, spawn: S)
        requires
            forall|rx: Receiver<F, Arc<SyncQueue<F>>>| #[trigger] spawn.requires((rx,)),
        ensures
            final(self).sender_spec() == old(self).sender_spec(),
            old(self).pool() is Some ==> final(self).pool() == old(self).pool(),
            old(self).pool() is None ==> {
                &&& final(self).pool() is Some
                &&& final(self).pool()->Some_0.len() == worker_count_spec(detected)
                &&& exists|rx: Receiver<F, Arc<SyncQueue<F>>>|
                    {
                        &&& cloned(old(self).sender_spec().handle(), rx.handle())
                        &&& forall|i: int|
                            0 <= i < final(self).pool()->Some_0.len() ==> started_by(
                                rx,
                                spawn,
                                #[trigger] final(self).pool()->Some_0[i],
                            )
                    }
            },
    {
        if self.threads.is_some() {
            return;
        }
        let receiver = Receiver::from_queue(self.sender.queue().clone());
        self.threads = Some(ThreadPool::from_jobs_iter(receiver, detected, spawn));
    }

    /// The sending end, for producers. Jobs sent before the start wait in
    /// the queue.
    pub fn sender(&self) -> (r: &Sender<F, Arc<SyncQueue<F>>>)
        ensures
            *r == self.sender_spec(),
    {
        &self.sender
    }

    /// Closes the queue, so that the workers stop once they are idle, and
    /// hands over the jobs that no worker took.
    pub fn close(&self) -> Result<VecDeque<F>, ClosedSyncQueueError> {
        self.sender.close()
    }
}

} // verus!
