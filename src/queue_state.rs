//! The state machine behind a closable FIFO work queue.
//!
//! A queue is either open, holding its items front first, or closed. Its
//! model is `Option<Seq<T>>`: `None` once closed, `Some(items)` while open.
use std::collections::VecDeque;
use vstd::prelude::*;

verus! {

/// The queue after `item` is pushed: appended at the back while open; a
/// closed queue is left as it is.
pub open spec fn pushed<T>(q: Option<Seq<T>>, item: T) -> Option<Seq<T>> {
    match q {
        Some(items) => Some(items.push(item)),
        None => None,
    }
}

/// Whether a pop on `q` has to wait: the queue is open and empty.
pub open spec fn waits<T>(q: Option<Seq<T>>) -> bool {
    match q {
        Some(items) => items.len() == 0,
        None => false,
    }
}

/// Whether `q` holds at least one item.
pub open spec fn has_front<T>(q: Option<Seq<T>>) -> bool {
    match q {
        Some(items) => items.len() > 0,
        None => false,
    }
}

/// The queue after a pop: its front item removed if it has one.
pub open spec fn popped<T>(q: Option<Seq<T>>) -> Option<Seq<T>> {
    match q {
        Some(items) => if items.len() > 0 {
            Some(items.drop_first())
        } else {
            q
        },
        None => None,
    }
}

/// The error of an operation on a closed queue.
#[derive(Debug)]
pub struct ClosedSyncQueueError(());

impl ClosedSyncQueueError {
    pub(crate) fn new() -> Self {
        ClosedSyncQueueError(())
    }
}

/// A push refused by a closed queue; it hands the item back.
#[derive(Debug)]
pub struct SyncQueuePushError<T> {
    source: ClosedSyncQueueError,
    item: T,
}

impl<T> View for SyncQueuePushError<T> {
    type V = T;

    /// The item that was refused.
    closed spec fn view(&self) -> T {
        self.item
    }
}

impl<T> SyncQueuePushError<T> {
    /// The item that was refused.
    pub fn into_item(self) -> (r: T)
        ensures
            r == self@,
    {
        self.item
    }
}

impl<T> From<SyncQueuePushError<T>> for ClosedSyncQueueError {
    fn from(value: SyncQueuePushError<T>) -> Self {
        value.source
    }
}

impl<T> vstd::std_specs::convert::FromSpecImpl<SyncQueuePushError<T>> for ClosedSyncQueueError {
    open spec fn obeys_from_spec() -> bool {
        true
    }

    closed spec fn from_spec(v: SyncQueuePushError<T>) -> Self {
        ClosedSyncQueueError(())
    }
}

/// The contents of a queue: `None` once closed.
pub struct QueueState<T> {
    items: Option<VecDeque<T>>,
}

impl<T> View for QueueState<T> {
    type V = Option<Seq<T>>;

    closed spec fn view(&self) -> Option<Seq<T>> {
        match self.items {
            Some(d) => Some(d@),
            None => None,
        }
    }
}

impl<T> QueueState<T> {
    /// An open, empty queue.
    pub fn new() -> (r: Self)
        ensures
            r@ == Some(Seq::<T>::empty()),
    {
        QueueState { items: Some(VecDeque::new()) }
    }

    /// An open queue holding `items`, front first.
    pub fn from_items(items: VecDeque<T>) -> (r: Self)
        ensures
            r@ == Some(items@),
    {
        QueueState { items: Some(items) }
    }

    /// Appends `item` at the back; a closed queue refuses it and hands it back.
    pub fn push(&mut self, item: T) -> (r: Result<(), SyncQueuePushError<T>>)
        ensures
            final(self)@ == pushed(old(self)@, item),
            r is Ok <==> old(self)@ is Some,
            r matches Err(e) ==> e@ == item,
    {
        match &mut self.items {
            Some(queue) => {
                queue.push_back(item);
                Ok(())
            },
            None => Err(SyncQueuePushError { source: ClosedSyncQueueError::new(), item }),
        }
    }

    /// Removes the front item. `None` when the queue is open and empty, so
    /// that a caller has to wait; `Some(Err(..))` once the queue is closed.
    pub fn try_pop(&mut self) -> (r: Option<Result<T, ClosedSyncQueueError>>)
        ensures
            final(self)@ == popped(old(self)@),
            r is None <==> waits(old(self)@),
            r matches Some(Err(_)) <==> old(self)@ is None,
            r matches Some(Ok(x)) ==> has_front(old(self)@) && x == old(self)@->Some_0[0],
    {
        match &mut self.items {
            Some(queue) => match queue.pop_front() {
                Some(item) => Some(Ok(item)),
                None => None,
            },
            None => Some(Err(ClosedSyncQueueError::new())),
        }
    }

    /// Closes the queue and hands over what it still held; fails when it was
    /// already closed.
    pub fn close(&mut self) -> (r: Result<VecDeque<T>, ClosedSyncQueueError>)
        ensures
            final(self)@ is None,
            r is Ok <==> old(self)@ is Some,
            r matches Ok(rest) ==> old(self)@ == Some(rest@),
    {
        match self.items.take() {
            Some(rest) => Ok(rest),
            None => Err(ClosedSyncQueueError::new()),
        }
    }

    pub fn is_closed(&self) -> (r: bool)
        ensures
            r == self@ is None,
    {
        self.items.is_none()
    }

    /// Whether a pop would have to wait: the queue is open and empty.
    pub fn would_wait(&self) -> (r: bool)
        ensures
            r == waits(self@),
    {
        match &self.items {
            Some(queue) => queue.len() == 0,
            None => false,
        }
    }

    /// Whether the queue holds at least one item.
    pub fn has_items(&self) -> (r: bool)
        ensures
            r == has_front(self@),
    {
        match &self.items {
            Some(queue) => queue.len() > 0,
            None => false,
        }
    }
}

} // verus!
