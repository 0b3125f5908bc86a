//! Declarations of the locking primitives of `parking_lot` and the thin
//! trusted calls that the shared structures of the library make on them.
//!
//! What a lock holds at any moment depends on every thread that shares it, so
//! these calls promise nothing about the value a lock holds, except what
//! `parking_lot` documents of a condition wait: a wait that did not time out
//! ended because its condition was false. The verified code that uses them is
//! correct for every value it may receive.
//!
//! `parking_lot`'s `Mutex::lock` is documented to deadlock, not to panic, when
//! the thread already holds the lock, and its locks are never poisoned, so
//! locking cannot unwind; the library's `Drop` impls rely on that.

use vstd::prelude::*;
use parking_lot::{Condvar, Mutex, MutexGuard};
use std::sync::Arc;
use std::time::Duration;
use crate::semaphore::SemaphoreState;

verus! {

#[verifier::external_type_specification]
#[verifier::external_body]
#[verifier::reject_recursive_types(R)]
#[verifier::reject_recursive_types(T)]
pub struct ExLockMutex<R, T: ?Sized>(parking_lot::lock_api::Mutex<R, T>);

/// A held `parking_lot` lock. Verus refuses a declaration of
/// `lock_api::MutexGuard` (its bound names a trait it cannot declare), so the
/// guard is kept whole in a field hidden from Verus; only the trusted calls
/// below touch it.
#[verifier::external_body]
#[verifier::reject_recursive_types(T)]
pub struct LockGuard<'a, T> {
    guard: MutexGuard<'a, T>,
}

#[verifier::external_type_specification]
#[verifier::external_body]
pub struct ExRawMutex(parking_lot::RawMutex);

#[verifier::external_type_specification]
#[verifier::external_body]
pub struct ExCondvar(Condvar);

/// Calls `Arc::clone`, which gives another pointer to the same allocation:
/// the clone points to the very value the original points to.
#[verifier::external_body]
pub(crate) fn arc_clone<T>(a: &Arc<T>) -> (r: Arc<T>)
    ensures
        r == *a,
    opens_invariants none
    no_unwind
{
    Arc::clone(a)
}

/// Calls `parking_lot::Mutex::new`.
#[verifier::external_body]
pub(crate) fn mutex_new<T>(value: T) -> Mutex<T> {
    Mutex::new(value)
}

/// Calls `parking_lot::Mutex::lock`, which waits until the lock is free; it
/// neither fails nor panics (a thread that already holds the lock waits for
/// ever).
#[verifier::external_body]
pub(crate) fn mutex_lock<'a, T>(m: &'a Mutex<T>) -> LockGuard<'a, T>
    opens_invariants none
    no_unwind
{
    LockGuard { guard: m.lock() }
}

/// Calls `std::mem::replace` on the value behind a held lock and returns the
/// value it held.
#[verifier::external_body]
pub(crate) fn guard_replace<'a, T>(g: &mut LockGuard<'a, T>, value: T) -> T
    opens_invariants none
    no_unwind
{
    std::mem::replace(&mut *g.guard, value)
}

/// Calls `parking_lot::Condvar::new`.
#[verifier::external_body]
pub(crate) fn condvar_new() -> Condvar {
    Condvar::new()
}

/// A semaphore's state behind its lock, with the condition variable that
/// waiters on that lock use.
pub struct SemaphoreShared {
    lock: Mutex<SemaphoreState>,
    signal: Condvar,
}

impl SemaphoreShared {
    /// A fresh lock around `state`, with its own condition variable.
    pub(crate) fn new(state: SemaphoreState) -> SemaphoreShared {
        SemaphoreShared { lock: mutex_new(state), signal: condvar_new() }
    }
}

/// A held lock on a semaphore's state. Only `semaphore_lock` makes one, from
/// the lock of the `SemaphoreShared` it keeps, so the condition variable of
/// that `SemaphoreShared` is only ever used with its own lock.
pub struct SemaphoreGuard<'a> {
    guard: LockGuard<'a, SemaphoreState>,
    shared: &'a SemaphoreShared,
}

impl<'a> SemaphoreGuard<'a> {
    /// The shared state whose lock is held.
    pub(crate) closed spec fn shared(&self) -> &'a SemaphoreShared {
        self.shared
    }
}

/// Calls `parking_lot::Mutex::lock` on a semaphore's lock; it neither fails
/// nor panics.
#[verifier::external_body]
pub(crate) fn semaphore_lock<'a>(shared: &'a SemaphoreShared) -> (g: SemaphoreGuard<'a>)
    ensures
        g.shared() == shared,
    opens_invariants none
    no_unwind
{
    SemaphoreGuard { guard: LockGuard { guard: shared.lock.lock() }, shared }
}

/// Calls `std::mem::replace` on the semaphore state behind a held lock and
/// returns the state it held.
#[verifier::external_body]
pub(crate) fn semaphore_replace<'a>(g: &mut SemaphoreGuard<'a>, value: SemaphoreState) -> (r: SemaphoreState)
    ensures
        final(g).shared() == old(g).shared(),
    opens_invariants none
    no_unwind
{
    std::mem::replace(&mut *g.guard.guard, value)
}

/// Calls `parking_lot::Condvar::notify_one` on a semaphore's condition variable.
#[verifier::external_body]
pub(crate) fn semaphore_notify_one(shared: &SemaphoreShared)
    opens_invariants none
    no_unwind
{
    let _ = shared.signal.notify_one();
}

/// Calls `parking_lot::Condvar::notify_all` on a semaphore's condition variable.
#[verifier::external_body]
pub(crate) fn semaphore_notify_all(shared: &SemaphoreShared)
    opens_invariants none
    no_unwind
{
    let _ = shared.signal.notify_all();
}

/// Calls `parking_lot::Condvar::wait_while` with the semaphore's own
/// condition variable and blocking condition, and gives a copy of the state
/// the lock holds afterwards. The wait ends only once the condition is false,
/// so that state is not blocking. The guard always comes from the lock of the
/// same `SemaphoreShared` as the condition variable, which rules out the
/// documented panic for a condition variable used with a second mutex.
#[verifier::external_body]
pub(crate) fn semaphore_wait<'a>(g: &mut SemaphoreGuard<'a>) -> (s: SemaphoreState)
    ensures
        !crate::semaphore::spec_must_wait(s),
        final(g).shared() == old(g).shared(),
{
    g.shared.signal.wait_while(&mut g.guard.guard, |s| s.must_wait());
    *g.guard.guard
}

/// Calls `parking_lot::Condvar::wait_while_for` with the semaphore's own
/// condition variable and blocking condition, and gives a copy of the state
/// the lock holds afterwards with whether the wait timed out. A wait that did
/// not time out ended because the condition was false, so that state is then
/// not blocking.
#[verifier::external_body]
pub(crate) fn semaphore_wait_for<'a>(g: &mut SemaphoreGuard<'a>, timeout: Duration) -> (r: (SemaphoreState, bool))
    ensures
        !r.1 ==> !crate::semaphore::spec_must_wait(r.0),
        final(g).shared() == old(g).shared(),
{
    let w = g.shared.signal.wait_while_for(&mut g.guard.guard, |s| s.must_wait(), timeout);
    (*g.guard.guard, w.timed_out())
}

} // verus!
