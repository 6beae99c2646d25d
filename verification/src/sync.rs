//! Channels and locks of `std::sync`, declared for use from verified code. What a channel
//! or a lock yields depends on other threads, so the trusted items below promise nothing
//! of their results.
use vstd::prelude::*;
use std::collections::HashMap;
use std::sync::mpsc::{Receiver, Sender};
use std::sync::{Mutex, MutexGuard};

verus! {

#[verifier::external_type_specification]
#[verifier::external_body]
#[verifier::reject_recursive_types(T)]
pub struct ExSender<T>(Sender<T>);

#[verifier::external_type_specification]
#[verifier::external_body]
#[verifier::reject_recursive_types(T)]
pub struct ExReceiver<T>(Receiver<T>);

#[verifier::external_type_specification]
#[verifier::external_body]
#[verifier::reject_recursive_types(T)]
pub struct ExMutex<T: ?Sized>(Mutex<T>);

#[verifier::external_type_specification]
#[verifier::external_body]
#[verifier::reject_recursive_types(T)]
pub struct ExMutexGuard<'a, T: ?Sized + 'a>(MutexGuard<'a, T>);

/// `std::sync::mpsc::channel`: a new channel. Nothing is claimed.
#[verifier::external_body]
pub(crate) fn channel<T>() -> (Sender<T>, Receiver<T>) {
    std::sync::mpsc::channel()
}

/// `Sender::clone`: another sender of the same channel. Nothing is claimed.
#[verifier::external_body]
pub(crate) fn clone_sender<T>(tx: &Sender<T>) -> Sender<T> {
    tx.clone()
}

/// `Sender::send`; on failure the text of the error. Nothing is claimed: it fails when
/// the receiver is gone.
#[verifier::external_body]
pub(crate) fn send<T>(tx: &Sender<T>, value: T) -> Result<(), String> {
    tx.send(value).map_err(|e| e.to_string())
}

/// `Receiver::recv`: the next value, or `None` when every sender is gone. Nothing is
/// claimed.
#[verifier::external_body]
pub(crate) fn recv<T>(rx: &Receiver<T>) -> Option<T> {
    rx.recv().ok()
}

/// `Receiver::try_recv`: a waiting value, if any. Nothing is claimed.
#[verifier::external_body]
pub(crate) fn try_recv<T>(rx: &Receiver<T>) -> Option<T> {
    rx.try_recv().ok()
}

/// `Mutex::new`. Nothing is claimed.
#[verifier::external_body]
pub(crate) fn mutex<T>(value: T) -> Mutex<T> {
    Mutex::new(value)
}

/// `Mutex::lock`; a poisoned lock is used as it is (`PoisonError::into_inner`). Nothing is
/// claimed.
#[verifier::external_body]
pub(crate) fn lock<T>(m: &Mutex<T>) -> MutexGuard<'_, T> {
    match m.lock() {
        Ok(guard) => guard,
        Err(poisoned) => poisoned.into_inner(),
    }
}

/// `Receiver::recv` on a locked receiver: the next value, or `None` when every sender is
/// gone. Nothing is claimed.
#[verifier::external_body]
pub(crate) fn guarded_recv<T>(rx: &MutexGuard<'_, Receiver<T>>) -> Option<T> {
    rx.recv().ok()
}

/// `Vec::push` on a locked vector. Nothing is claimed.
#[verifier::external_body]
pub(crate) fn guarded_push<T>(items: &mut MutexGuard<'_, Vec<T>>, value: T) {
    items.push(value)
}

/// `Vec::clone` of a locked vector of senders. Nothing is claimed.
#[verifier::external_body]
pub(crate) fn guarded_clone<T>(items: &MutexGuard<'_, Vec<Sender<T>>>) -> Vec<Sender<T>> {
    (**items).clone()
}

/// The value of a locked flag. Nothing is claimed.
#[verifier::external_body]
pub(crate) fn guarded_flag(flag: &MutexGuard<'_, bool>) -> bool {
    **flag
}

} // verus!

verus! {

/// `HashMap::insert` on a locked map. Nothing is claimed.
#[verifier::external_body]
pub(crate) fn guarded_insert<V>(map: &mut MutexGuard<'_, HashMap<u32, V>>, key: u32, value: V) {
    map.insert(key, value);
}

/// `HashMap::remove` on a locked map. Nothing is claimed.
#[verifier::external_body]
pub(crate) fn guarded_remove<V>(map: &mut MutexGuard<'_, HashMap<u32, V>>, key: u32) {
    map.remove(&key);
}

/// The map behind a lock (`MutexGuard`'s `Deref`). Nothing is claimed of its contents,
/// which other threads change between locks.
#[verifier::external_body]
pub(crate) fn guarded_map<'a, V>(map: &'a MutexGuard<'_, HashMap<u32, V>>) -> &'a HashMap<u32, V> {
    &**map
}

} // verus!
