//! Values whose lifetime can only be shortened, never extended.
use std::marker::PhantomData;
use vstd::prelude::*;

verus! {

/// A value anchored to the lifetime `'a`.
pub struct Anchored<'a, T> {
    _anchor: PhantomData<&'a mut &'a ()>,
    inner: T,
}

impl<'a, T> View for Anchored<'a, T> {
    type V = T;

    /// The anchored value.
    closed spec fn view(&self) -> T {
        self.inner
    }
}

impl<T> Anchored<'static, T> {
    pub fn new(inner: T) -> (r: Self)
        ensures
            r@ == inner,
    {
        Anchored { _anchor: PhantomData, inner }
    }
}

impl<'a, T> Anchored<'a, T> {
    /// The same value, anchored to the shorter lifetime of `_borrow`.
    pub fn anchor<'b>(self, _borrow: &'b T) -> (r: Anchored<'b, T>) where 'a: 'b, T: 'b
        ensures
            r@ == self@,
    {
        Anchored { inner: self.inner, _anchor: PhantomData }
    }

    /// A borrow of the anchored value.
    pub fn get(&self) -> (r: &T)
        ensures
            *r == self@,
    {
        &self.inner
    }
}

} // verus!
