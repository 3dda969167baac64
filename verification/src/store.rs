//! The message store: one queue behind a reader/writer lock, reached through
//! handles that share it.
//!
//! Both operations take the lock exclusively and work on the live queue, so a
//! retrieval reads and removes in one step. What each returns and does to the
//! queue, for every answer of the lock, is the contract of [`publish_held`]
//! and [`retrieve_held`]; between two calls other handles may have changed
//! the queue, so the contracts of [`DataStore`] speak of the result alone.

use std::sync::{Arc, RwLock, RwLockWriteGuard};
use vstd::prelude::*;
use crate::error::Error;
use crate::queue::{published, retrieved, MessageQueue};

verus! {

/// `std::sync::RwLock`, opaque to the verifier.
#[verifier::external_type_specification]
#[verifier::external_body]
#[verifier::reject_recursive_types(T)]
pub struct ExRwLock<T: ?Sized>(RwLock<T>);

/// `std::sync::RwLockWriteGuard`, opaque to the verifier.
#[verifier::external_type_specification]
#[verifier::external_body]
#[verifier::reject_recursive_types(T)]
pub struct ExRwLockWriteGuard<'a, T: ?Sized + 'a>(RwLockWriteGuard<'a, T>);

/// `RwLock::new`: a lock around `value`. Nothing is claimed of the lock.
pub assume_specification<T>[ RwLock::<T>::new ](value: T) -> (lock: RwLock<T>)
;

/// `RwLock::write`: blocks until the lock is held exclusively. Fails only
/// where the lock is poisoned, with the text of the poison error. Nothing is
/// claimed of which of the two happens.
///
/// `write` may panic where the calling thread already holds the lock. No
/// guard leaves this crate, and each is dropped before the function that
/// took it returns, so no caller can hold one.
#[verifier::external_body]
fn lock_exclusive<'a>(lock: &'a RwLock<MessageQueue>) -> (held: Result<
    RwLockWriteGuard<'a, MessageQueue>,
    String,
>) {
    match lock.write() {
        Ok(guard) => Ok(guard),
        Err(poisoned) => Err(poisoned.to_string()),
    }
}

/// `DerefMut::deref_mut` of `RwLockWriteGuard`: the queue that the guard
/// protects. Nothing is claimed of what the queue holds, which is whatever
/// the last holder of the lock left.
#[verifier::external_body]
pub(crate) fn guarded<'a, 'b>(guard: &'a mut RwLockWriteGuard<'b, MessageQueue>) -> (queue:
    &'a mut MessageQueue) {
    &mut **guard
}

/// A handle to the message store. Clones of a handle reach the same queue.
#[derive(Clone, Debug)]
pub struct DataStore {
    data: Arc<RwLock<MessageQueue>>,
}

impl DataStore {
    /// A handle to a new, empty store.
    pub fn new() -> (store: DataStore) {
        DataStore { data: Arc::new(RwLock::new(MessageQueue::new())) }
    }

    /// Appends `message` to the back of the queue: [`publish_held`] of the
    /// lock's answer. The handle itself is left as it was.
    /// Fails only where the lock cannot be acquired, with `WriteLockError`
    /// and the lock's own text.
    pub fn publish(&mut self, message: String) -> (r: Result<(), Error>)
        ensures
            *final(self) == *old(self),
            r matches Err(e) ==> e is WriteLockError,
    {
        match self.hold() {
            Ok(mut guard) => publish_held(Ok(guarded(&mut guard)), message),
            Err(text) => publish_held(Err(text), message),
        }
    }

    /// Removes the oldest message and returns it, or `None` where the queue
    /// is empty.
    ///
    /// Fails only where the lock cannot be acquired, with `EmptyMessage`.
    ///
    /// What is returned, and what becomes of the queue, is [`retrieve_held`]
    /// of the lock's answer.
    pub fn retrieve(&self) -> (r: Result<Option<String>, Error>)
        ensures
            r matches Err(e) ==> e == Error::EmptyMessage,
    {
        match self.hold() {
            Ok(mut guard) => retrieve_held(Ok(guarded(&mut guard))),
            Err(text) => retrieve_held(Err(text)),
        }
    }

    /// Takes the store's lock exclusively; the guard, or the lock's text
    /// where it is poisoned.
    pub(crate) fn hold(&self) -> (held: Result<RwLockWriteGuard<'_, MessageQueue>, String>) {
        lock_exclusive(&*self.data)
    }
}

impl Default for DataStore {
    fn default() -> (store: DataStore) {
        DataStore::new()
    }
}

/// What a publish does with the answer of the lock. Holding the queue, it
/// appends `message` and succeeds; refused the lock, it leaves everything as
/// it is and fails with `WriteLockError` and the lock's own text.
pub fn publish_held(held: Result<&mut MessageQueue, String>, message: String) -> (r: Result<
    (),
    Error,
>)
    ensures
        match held {
            Ok(queue) => {
                &&& r == Ok::<(), Error>(())
                &&& final(queue)@ == published(queue@, message@)
            },
            Err(text) => r == Err::<(), Error>(Error::WriteLockError(text)),
        },
{
    match held {
        Ok(queue) => {
            queue.push(message);
            Ok(())
        },
        Err(text) => Err(Error::WriteLockError(text)),
    }
}

/// What a retrieve does with the answer of the lock. Holding the queue, it
/// removes the oldest message and hands it out, or hands out `None` and
/// leaves the empty queue empty; refused the lock, it fails with
/// `EmptyMessage`.
pub fn retrieve_held(held: Result<&mut MessageQueue, String>) -> (r: Result<
    Option<String>,
    Error,
>)
    ensures
        match held {
            Ok(queue) => {
                &&& r is Ok
                &&& (match r->Ok_0 {
                    Some(text) => Some(text@),
                    None => None,
                }) == retrieved(queue@).0
                &&& final(queue)@ == retrieved(queue@).1
            },
            Err(_) => r == Err::<Option<String>, Error>(Error::EmptyMessage),
        },
{
    match held {
        Ok(queue) => Ok(queue.pop()),
        Err(_) => Err(Error::EmptyMessage),
    }
}

} // verus!
