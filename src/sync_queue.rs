//! A closable FIFO queue shared between threads.
//!
//! Every operation takes the queue's lock and runs one step of
//! [`QueueState`], whose contracts say exactly what each step does. Other
//! threads act between two calls, so what a call finds in the queue is open:
//! the contracts here say which queue a handle reaches and what holds of
//! every outcome (a refused push hands its item back). `pop` waits until the
//! step it runs no longer has to wait.
use crate::lock::{guarded, lock, wait_until_ready};
use crate::queue_state::{ClosedSyncQueueError, QueueState, SyncQueuePushError};
use std::collections::VecDeque;
use std::sync::{Arc, Condvar, Mutex};
use vstd::prelude::*;

pub mod spmc;

pub use spmc::{ReceiverIntoIter, ReceiverIter};

verus! {

#[verifier::reject_recursive_types(T)]
pub struct SyncQueue<T> {
    items: Mutex<QueueState<T>>,
    cond_var: Condvar,
}

impl<T> SyncQueue<T> {
    /// An open, empty queue.
    pub fn new() -> Self {
        SyncQueue { items: Mutex::new(QueueState::new()), cond_var: Condvar::new() }
    }

    /// An open queue holding `items`, front first.
    pub fn from_items(items: VecDeque<T>) -> Self {
        SyncQueue { items: Mutex::new(QueueState::from_items(items)), cond_var: Condvar::new() }
    }

    /// Appends `item` and wakes one waiting pop. Never blocks but for the
    /// lock; a closed queue hands the item back.
    pub fn push(&self, item: T) -> (r: Result<(), SyncQueuePushError<T>>)
        ensures
            r matches Err(e) ==> e@ == item,
    {
        let mut g = lock(&self.items);
        let r = guarded(&mut g).push(item);
        if r.is_ok() {
            self.cond_var.notify_one();
        }
        r
    }

    /// Takes the front item, waiting while the queue is open and empty.
    /// Fails once the queue is closed; after taking an item, wakes one more
    /// waiting pop if items remain.
    pub fn pop(&self) -> Result<T, ClosedSyncQueueError> {
        let mut slot = Some(lock(&self.items));
        let queue = wait_until_ready(&self.cond_var, &mut slot);
        let r = queue.try_pop();
        assert(r is Some);
        if queue.has_items() {
            self.cond_var.notify_one();
        }
        match r {
            Some(r) => r,
            // ruled out above: a queue that no longer waits gives a result
            None => Err(ClosedSyncQueueError::new()),
        }
    }

    /// Takes the front item without waiting: `None` while the queue is open
    /// and empty, `Some(Err(..))` once it is closed.
    pub fn try_pop(&self) -> Option<Result<T, ClosedSyncQueueError>> {
        let mut g = lock(&self.items);
        let queue = guarded(&mut g);
        let r = queue.try_pop();
        if queue.has_items() {
            self.cond_var.notify_one();
        }
        r
    }

    /// Closes the queue, wakes every waiting pop and hands over the items
    /// that were left. Fails when the queue was already closed.
    pub fn close(&self) -> Result<VecDeque<T>, ClosedSyncQueueError> {
        let mut g = lock(&self.items);
        let r = guarded(&mut g).close();
        self.cond_var.notify_all();
        r
    }

    pub fn is_closed(&self) -> bool {
        let mut g = lock(&self.items);
        guarded(&mut g).is_closed()
    }

    /// The items popped one by one, until the queue is closed. Making it
    /// pops nothing.
    pub fn pop_iter(&self) -> (r: PopIter<'_, T>)
        ensures
            r.receiver().handle() == self,
    {
        spmc::Receiver::from_queue(self).into_iter()
    }

    /// Like [`SyncQueue::pop_iter`], owning the queue.
    pub fn into_iter(self) -> (r: IntoIter<T>)
        ensures
            r.receiver().handle() == self,
    {
        spmc::Receiver::from_queue(self).into_iter()
    }
}

/// Whatever reaches a shared queue: the queue itself, a borrow of it, or a
/// shared pointer to it.
pub trait QueueRef<T> {
    /// The queue reached.
    spec fn target(&self) -> SyncQueue<T>;

    fn queue_ref(&self) -> (r: &SyncQueue<T>)
        ensures
            *r == self.target(),
    ;
}

impl<T> QueueRef<T> for SyncQueue<T> {
    open spec fn target(&self) -> SyncQueue<T> {
        *self
    }

    fn queue_ref(&self) -> (r: &SyncQueue<T>) {
        self
    }
}

impl<'a, T> QueueRef<T> for &'a SyncQueue<T> {
    open spec fn target(&self) -> SyncQueue<T> {
        **self
    }

    fn queue_ref(&self) -> (r: &SyncQueue<T>) {
        *self
    }
}

impl<T> QueueRef<T> for Arc<SyncQueue<T>> {
    open spec fn target(&self) -> SyncQueue<T> {
        **self
    }

    fn queue_ref(&self) -> (r: &SyncQueue<T>) {
        &**self
    }
}

pub type PopIter<'a, T> = ReceiverIter<'a, T>;

pub type IntoIter<T> = ReceiverIntoIter<T, SyncQueue<T>>;

} // verus!
