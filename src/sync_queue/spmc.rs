//! Sending and receiving ends of a shared queue.
use super::{QueueRef, SyncQueue};
use crate::queue_state::{ClosedSyncQueueError, SyncQueuePushError};
use std::collections::VecDeque;
use std::marker::PhantomData;
use vstd::prelude::*;

verus! {

/// A sending end and a receiving end of one queue.
pub fn unbound<T, Q: QueueRef<T> + Clone>(queue: Q) -> (r: (Sender<T, Q>, Receiver<T, Q>))
    ensures
        cloned(queue, r.0.handle()),
        r.1.handle() == queue,
{
    (Sender::from_queue(queue.clone()), Receiver::from_queue(queue))
}

/// The sending end of a queue. Closing it closes the queue.
pub struct Sender<T, Q: QueueRef<T>> {
    _marker: PhantomData<T>,
    queue: Q,
}

impl<T, Q: QueueRef<T>> Sender<T, Q> {
    /// What this end reaches its queue through.
    pub closed spec fn handle(&self) -> Q {
        self.queue
    }

    pub fn from_queue(queue: Q) -> (r: Self)
        ensures
            r.handle() == queue,
    {
        Sender { _marker: PhantomData, queue }
    }

    /// Pushes `item`; a closed queue hands it back.
    pub fn send(&self, item: T) -> (r: Result<(), SyncQueuePushError<T>>)
        ensures
            r matches Err(e) ==> e@ == item,
    {
        self.queue.queue_ref().push(item)
    }

    pub fn queue(&self) -> (r: &Q)
        ensures
            *r == self.handle(),
    {
        &self.queue
    }

    /// Closes the queue, which tells every receiver to stop, and hands over
    /// the items that were left. Fails when the queue was closed already.
    pub fn close(&self) -> Result<VecDeque<T>, ClosedSyncQueueError> {
        self.queue.queue_ref().close()
    }
}

/// The receiving end of a queue. Several of them may share one queue.
pub struct Receiver<T, Q> {
    _marker: PhantomData<T>,
    queue: Q,
}

impl<T, Q> Receiver<T, Q> {
    /// What this end reaches its queue through.
    pub closed spec fn handle(&self) -> Q {
        self.queue
    }

    pub fn from_queue(queue: Q) -> (r: Self)
        ensures
            r.handle() == queue,
    {
        Receiver { _marker: PhantomData, queue }
    }

    pub fn queue(&self) -> (r: &Q)
        ensures
            *r == self.handle(),
    {
        &self.queue
    }
}

impl<T, Q: QueueRef<T>> Receiver<T, Q> {
    /// Pops an item, waiting while the queue is open and empty; fails once it
    /// is closed.
    pub fn recv(&self) -> Result<T, ClosedSyncQueueError> {
        self.queue.queue_ref().pop()
    }

    /// Pops an item without waiting: `None` while the queue is open and
    /// empty, `Some(Err(..))` once it is closed.
    pub fn try_recv(&self) -> Option<Result<T, ClosedSyncQueueError>> {
        self.queue.queue_ref().try_pop()
    }

    /// The items received one by one, through a borrow of the queue.
    pub fn iter(&self) -> (r: ReceiverIter<'_, T>)
        ensures
            *r.receiver().handle() == self.handle().target(),
    {
        Receiver { _marker: PhantomData, queue: self.queue.queue_ref() }.into_iter()
    }

    /// The items received one by one.
    pub fn into_iter(self) -> (r: ReceiverIntoIter<T, Q>)
        ensures
            r.receiver() == self,
    {
        ReceiverIntoIter { inner: self }
    }
}

impl<T, Q: Clone> Clone for Receiver<T, Q> {
    /// Another receiving end of the same queue.
    fn clone(&self) -> (r: Self)
        ensures
            cloned(self.handle(), r.handle()),
    {
        Receiver { _marker: PhantomData, queue: self.queue.clone() }
    }
}

pub type ReceiverIter<'a, T> = ReceiverIntoIter<T, &'a SyncQueue<T>>;

/// Items received one by one: it ends once the queue is closed.
pub struct ReceiverIntoIter<T, Q> {
    inner: Receiver<T, Q>,
}

impl<T, Q> ReceiverIntoIter<T, Q> {
    pub closed spec fn receiver(&self) -> Receiver<T, Q> {
        self.inner
    }
}

impl<T, Q: QueueRef<T>> ReceiverIntoIter<T, Q> {
    /// The next item, waiting for one while the queue is open and empty;
    /// `None` once the queue is closed.
    pub fn next(&mut self) -> Option<T> {
        self.inner.recv().ok()
    }

    /// Bounds on the number of items still to come: none known while the
    /// queue is open, none at all once it is closed.
    pub fn size_hint(&self) -> (r: (usize, Option<usize>))
        ensures
            r.0 == 0,
            r.1 is None || r.1 == Some(0usize),
    {
        if self.inner.queue.queue_ref().is_closed() {
            (0, Some(0))
        } else {
            (0, None)
        }
    }
}

} // verus!
