//! Forgetting values and holding them without dropping, for values that may
//! be forgotten.
use crate::marker::Forget;
use vstd::prelude::*;
use vstd::raw_ptr::MemContents;

verus! {

pub assume_specification<T>[ std::mem::forget::<T> ](t: T);

/// Relies on `MaybeUninit::write`: the slot then holds `val`, and the result
/// borrows it.
pub assume_specification<T>[ std::mem::MaybeUninit::<T>::write ](
    m: &mut std::mem::MaybeUninit<T>,
    val: T,
) -> (r: &mut T)
    ensures
        *r == val,
        final(m).mem_contents() == MemContents::Init(*final(r)),
;

/// Drops the value without running its destructor.
pub fn forget<T: Forget>(x: T) {
    std::mem::forget(x)
}

/// A value whose destructor is never run.
pub struct ManuallyDrop<T> {
    inner: std::mem::ManuallyDrop<T>,
}

impl<T> View for ManuallyDrop<T> {
    type V = T;

    /// The held value.
    closed spec fn view(&self) -> T {
        self.inner@
    }
}

impl<T> ManuallyDrop<T> {
    pub fn new(value: T) -> (r: Self) where T: Forget
        ensures
            r@ == value,
    {
        ManuallyDrop { inner: std::mem::ManuallyDrop::new(value) }
    }

    /// The held value, whose destructor runs again as usual.
    pub fn into_inner(slot: ManuallyDrop<T>) -> (r: T)
        ensures
            r == slot@,
    {
        std::mem::ManuallyDrop::into_inner(slot.inner)
    }
}

/// Memory for a value that may not be there yet.
pub struct MaybeUninit<T> {
    inner: std::mem::MaybeUninit<T>,
}

impl<T> MaybeUninit<T> {
    /// What the memory holds.
    pub closed spec fn contents(&self) -> MemContents<T> {
        self.inner.mem_contents()
    }

    pub fn new(val: T) -> (r: Self) where T: Forget
        ensures
            r.contents() == MemContents::Init(val),
    {
        MaybeUninit { inner: std::mem::MaybeUninit::new(val) }
    }

    /// Memory that holds no value.
    pub fn uninit() -> (r: Self)
        ensures
            r.contents() == MemContents::<T>::Uninit,
    {
        MaybeUninit { inner: std::mem::MaybeUninit::uninit() }
    }

    /// Memory that holds no value yet; like [`MaybeUninit::uninit`].
    pub fn zeroed() -> (r: Self)
        ensures
            r.contents() == MemContents::<T>::Uninit,
    {
        MaybeUninit { inner: std::mem::MaybeUninit::uninit() }
    }

    /// Stores `val`, without dropping what was there, and borrows it.
    pub fn write(&mut self, val: T) -> (r: &mut T) where T: Forget
        ensures
            *r == val,
            final(self).contents() == MemContents::Init(*final(r)),
    {
        self.inner.write(val)
    }
}

} // verus!
