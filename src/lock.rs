//! The std locking primitives that the shared queue is built on.
use crate::queue_state::{waits, QueueState};
use std::sync::{Condvar, Mutex, MutexGuard, PoisonError};
use vstd::prelude::*;

verus! {

#[verifier::external_type_specification]
#[verifier::external_body]
#[verifier::reject_recursive_types(T)]
pub struct ExMutex<T: ?Sized>(Mutex<T>);

#[verifier::external_type_specification]
#[verifier::external_body]
#[verifier::reject_recursive_types(T)]
pub struct ExMutexGuard<'a, T: ?Sized + 'a>(MutexGuard<'a, T>);

#[verifier::external_type_specification]
#[verifier::external_body]
pub struct ExCondvar(Condvar);

pub assume_specification<T>[ Mutex::<T>::new ](t: T) -> Mutex<T>;

pub assume_specification[ Condvar::new ]() -> Condvar;

pub assume_specification[ Condvar::notify_one ](c: &Condvar);

pub assume_specification[ Condvar::notify_all ](c: &Condvar);

/// Relies on `Mutex::lock`: blocks until this thread holds the lock. A lock
/// poisoned by a holder that panicked still hands out its value.
#[verifier::external_body]
pub(crate) fn lock<T>(m: &Mutex<T>) -> MutexGuard<'_, T> {
    m.lock().unwrap_or_else(PoisonError::into_inner)
}

/// Relies on `DerefMut` for `MutexGuard`: the value behind a held lock.
#[verifier::external_body]
pub(crate) fn guarded<'a, 'b, T>(g: &'a mut MutexGuard<'b, T>) -> &'a mut T {
    &mut **g
}

/// Relies on `Condvar::wait_while`: releases the lock and sleeps until the
/// queue behind it no longer has a pop wait, then holds the lock again and
/// hands out the queue. The condition is false whenever `wait_while` returns
/// `Ok`; on a lock poisoned by a holder that panicked it returns the guard in
/// an error instead, and the wait is taken up again with that guard.
#[verifier::external_body]
pub(crate) fn wait_until_ready<'a, 'b, T>(
    cv: &Condvar,
    slot: &'a mut Option<MutexGuard<'b, QueueState<T>>>,
) -> (r: &'a mut QueueState<T>)
    requires
        old(slot).is_some(),
    ensures
        !waits(r@),
{
    let mut g = slot.take().unwrap();
    let g = loop {
        match cv.wait_while(g, |q| q.would_wait()) {
            Ok(ready) => break ready,
            Err(poisoned) => g = poisoned.into_inner(),
        }
    };
    &mut **slot.insert(g)
}

} // verus!
