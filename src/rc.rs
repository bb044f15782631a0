//! Shared pointers that only take values that may be forgotten: a cycle of
//! them would never be dropped.
use crate::marker::Forget;
use vstd::prelude::*;

verus! {

/// A reference-counted pointer, for one thread.
pub struct Rc<T> {
    inner: std::rc::Rc<T>,
}

impl<T> View for Rc<T> {
    type V = T;

    /// The shared value.
    closed spec fn view(&self) -> T {
        *self.inner
    }
}

impl<T> Rc<T> {
    pub fn new(x: T) -> (r: Self) where T: Forget
        ensures
            r@ == x,
    {
        Rc { inner: std::rc::Rc::new(x) }
    }

    /// A borrow of the shared value.
    pub fn get(&self) -> (r: &T)
        ensures
            *r == self@,
    {
        &*self.inner
    }
}

/// A reference-counted pointer that threads may share.
pub struct Arc<T> {
    inner: std::sync::Arc<T>,
}

impl<T> View for Arc<T> {
    type V = T;

    /// The shared value.
    closed spec fn view(&self) -> T {
        *self.inner
    }
}

impl<T> Arc<T> {
    pub fn new(x: T) -> (r: Self) where T: Forget
        ensures
            r@ == x,
    {
        Arc { inner: std::sync::Arc::new(x) }
    }

    /// A borrow of the shared value.
    pub fn get(&self) -> (r: &T)
        ensures
            *r == self@,
    {
        &*self.inner
    }
}

} // verus!
