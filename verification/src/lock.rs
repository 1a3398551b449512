//! The `tokio` mutex and the pointer that shares it, as far as the pool uses
//! them.

use std::sync::Arc;
use tokio::sync::{Mutex, MutexGuard, TryLockError};
use vstd::prelude::*;

verus! {

/// `tokio::sync::Mutex`. Its inside, the protected value included, is hidden
/// from the verifier.
#[verifier::external_type_specification]
#[verifier::external_body]
#[verifier::reject_recursive_types(T)]
pub struct ExMutex<T: ?Sized>(Mutex<T>);

/// `tokio::sync::MutexGuard`, the handle to a held mutex.
#[verifier::external_type_specification]
#[verifier::external_body]
#[verifier::reject_recursive_types(T)]
pub struct ExMutexGuard<'a, T: ?Sized>(MutexGuard<'a, T>);

/// `tokio::sync::TryLockError`, which carries nothing.
#[verifier::external_type_specification]
#[verifier::external_body]
pub struct ExTryLockError(TryLockError);

/// `Mutex::new`: a new, unlocked mutex around `value`. Nothing is claimed of
/// the result.
#[verifier::external_body]
pub(crate) fn new_mutex<S>(value: S) -> Mutex<S> {
    Mutex::new(value)
}

/// `Mutex::try_lock`: one attempt to take the lock, which never waits. It
/// fails when the lock is held elsewhere, so nothing is claimed of the result.
pub assume_specification<'a, T: ?Sized>[ Mutex::<T>::try_lock ](mutex: &'a Mutex<T>) -> Result<
    MutexGuard<'a, T>,
    TryLockError,
>;

/// `Arc::clone`: one more pointer to the same allocation, and so to the same
/// value.
#[verifier::external_body]
pub(crate) fn share<S>(pointer: &Arc<S>) -> (duplicate: Arc<S>)
    ensures
        duplicate == *pointer,
{
    Arc::clone(pointer)
}

/// `DerefMut::deref_mut` of a `MutexGuard`: exclusive access to the protected
/// value while the guard lives. Nothing is claimed of the value found.
#[verifier::external_body]
pub(crate) fn locked<'g, 'a, S>(guard: &'g mut MutexGuard<'a, S>) -> &'g mut S {
    &mut **guard
}

} // verus!
