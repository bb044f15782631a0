//! Channels of std, for values that may be forgotten.
use crate::marker::Forget;
use vstd::prelude::*;

verus! {

#[verifier::external_type_specification]
#[verifier::external_body]
#[verifier::reject_recursive_types(T)]
pub struct ExSyncSender<T>(std::sync::mpsc::SyncSender<T>);

#[verifier::external_type_specification]
#[verifier::external_body]
#[verifier::reject_recursive_types(T)]
pub struct ExSender<T>(std::sync::mpsc::Sender<T>);

#[verifier::external_type_specification]
#[verifier::external_body]
#[verifier::reject_recursive_types(T)]
pub struct ExReceiver<T>(std::sync::mpsc::Receiver<T>);

pub assume_specification<T>[ std::sync::mpsc::sync_channel::<T> ](bound: usize) -> (std::sync::mpsc::SyncSender<T>, std::sync::mpsc::Receiver<T>);

pub assume_specification<T>[ std::sync::mpsc::channel::<T> ]() -> (std::sync::mpsc::Sender<T>, std::sync::mpsc::Receiver<T>);

/// A channel whose sends each wait for a matching receive.
pub fn rendezvous_channel<T>() -> (std::sync::mpsc::SyncSender<T>, std::sync::mpsc::Receiver<T>) {
    std::sync::mpsc::sync_channel(0)
}

/// A channel that holds up to `bound` values.
pub fn sync_channel<T: Forget>(bound: usize) -> (std::sync::mpsc::SyncSender<T>, std::sync::mpsc::Receiver<T>) {
    std::sync::mpsc::sync_channel(bound)
}

/// A channel without bound.
pub fn channel<T: Forget>() -> (std::sync::mpsc::Sender<T>, std::sync::mpsc::Receiver<T>) {
    std::sync::mpsc::channel()
}

} // verus!
