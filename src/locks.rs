//! std's mutex, for a lock that a drop can release without opening any invariant.
//! Verus sees nothing of what a guard holds: the logic run under the lock is in
//! verified functions that take the guarded value by `&mut`.

use vstd::prelude::*;
use std::sync::{Mutex, MutexGuard, TryLockError};

verus! {

#[verifier::external_type_specification]
#[verifier::external_body]
#[verifier::reject_recursive_types(T)]
pub struct ExMutex<T: ?Sized>(Mutex<T>);

#[verifier::external_type_specification]
#[verifier::external_body]
#[verifier::reject_recursive_types(T)]
pub struct ExMutexGuard<'a, T: ?Sized + 'a>(MutexGuard<'a, T>);

/// Relies on `Mutex::new`: an unlocked mutex that holds `t`.
pub assume_specification<T>[ Mutex::<T>::new ](t: T) -> Mutex<T>;

/// Relies on `Mutex::lock`: waits until the mutex is free and holds it until the guard
/// is dropped. A mutex poisoned by a panic is taken over as it stands. std leaves
/// open what happens when this thread already holds the mutex (a panic or a wait
/// that never ends); nothing in a contract can exclude it, so the callers are only
/// those that a user calls as they would `Mutex::lock` itself.
#[verifier::external_body]
pub(crate) fn lock_mutex<T>(m: &Mutex<T>) -> MutexGuard<'_, T> {
    match m.lock() {
        Ok(g) => g,
        Err(poisoned) => poisoned.into_inner(),
    }
}

/// Relies on `Mutex::try_lock`: the guard if the mutex was free, `None` if it is held,
/// without waiting. A mutex poisoned by a panic is taken over as it stands.
#[verifier::external_body]
pub(crate) fn try_lock_mutex<T>(m: &Mutex<T>) -> Option<MutexGuard<'_, T>> {
    match m.try_lock() {
        Ok(g) => Some(g),
        Err(TryLockError::Poisoned(poisoned)) => Some(poisoned.into_inner()),
        Err(TryLockError::WouldBlock) => None,
    }
}

/// Relies on `MutexGuard`'s `Deref`: the value under the lock.
#[verifier::external_body]
pub(crate) fn guarded<'b, 'a, T>(g: &'b MutexGuard<'a, T>) -> &'b T {
    &**g
}

/// Relies on `MutexGuard`'s `DerefMut`: the value under the lock, for mutation.
#[verifier::external_body]
pub(crate) fn guarded_mut<'b, 'a, T>(g: &'b mut MutexGuard<'a, T>) -> &'b mut T {
    &mut **g
}

} // verus!
