//! Values that may be forgotten, and a wrapper for those that may not.
//!
//! Forgetting a value skips its destructor. That is harmless for a value
//! that borrows nothing; a value tied to a borrow may have a destructor that
//! others rely on before the borrow ends (a guard that joins a thread, say).
use std::marker::PhantomData;
use vstd::prelude::*;

verus! {

/// Types whose values may be forgotten: those that hold no borrow.
pub trait Forget {}

impl<T: 'static> Forget for T {}

/// A value tied to the lifetime `'a`: unless `'a` is `'static`, it is not
/// [`Forget`].
pub struct Unforget<'a, T> {
    _anchor: PhantomData<&'a ()>,
    inner: T,
}

impl<'a, T> View for Unforget<'a, T> {
    type V = T;

    /// The wrapped value.
    closed spec fn view(&self) -> T {
        self.inner
    }
}

impl<T> Unforget<'static, T> {
    pub fn new(inner: T) -> (r: Self)
        ensures
            r@ == inner,
    {
        Unforget { _anchor: PhantomData, inner }
    }
}

impl<'a, T> Unforget<'a, T> {
    pub fn with_lifetime(inner: T) -> (r: Self)
        ensures
            r@ == inner,
    {
        Unforget { _anchor: PhantomData, inner }
    }

    /// The wrapped value.
    pub fn into_inner(slot: Self) -> (r: T)
        ensures
            r == slot@,
    {
        slot.inner
    }

    /// A borrow of the wrapped value.
    pub fn get(&self) -> (r: &T)
        ensures
            *r == self@,
    {
        &self.inner
    }
}

} // verus!
