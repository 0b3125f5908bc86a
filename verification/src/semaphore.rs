//! A counting semaphore with timeout support.
//!
//! The bookkeeping is `SemaphoreState`, a plain value whose transitions are
//! verified. `TimeoutSemaphore` shares one such state between threads behind a
//! lock; a `SemaphorePermit` gives its permit back when dropped.

use vstd::prelude::*;
use std::sync::Arc;
use std::time::Duration;
use crate::sync::{
    arc_clone, semaphore_lock, semaphore_notify_all, semaphore_notify_one, semaphore_replace, semaphore_wait,
    semaphore_wait_for, SemaphoreGuard, SemaphoreShared,
};

verus! {

/// Error types for semaphore operations.
#[derive(Debug)]
pub enum SemaphoreError {
    /// No permit became available in time.
    Timeout,
    /// The semaphore is closed.
    Closed,
    /// The lock guarding the semaphore could not be taken.
    LockError(String),
}

impl SemaphoreError {
    /// The human readable message of this error.
    pub fn message(&self) -> (r: String)
        ensures
            r@ == match *self {
                SemaphoreError::Timeout => "Timed out waiting for semaphore permit"@,
                SemaphoreError::Closed => "Semaphore is closed"@,
                SemaphoreError::LockError(s) => "Failed to acquire lock: "@ + s@,
            },
    {
        match self {
            SemaphoreError::Timeout => String::from_str("Timed out waiting for semaphore permit"),
            SemaphoreError::Closed => String::from_str("Semaphore is closed"),
            SemaphoreError::LockError(s) => {
                let mut r = String::from_str("Failed to acquire lock: ");
                r.append(s.as_str());
                r
            },
        }
    }
}

/// The bookkeeping of a semaphore: its capacity, the permits handed out and
/// still held, and whether it was closed.
#[derive(Clone, Copy, Debug, PartialEq, Eq, Structural)]
pub struct SemaphoreState {
    pub max_permits: usize,
    pub held: usize,
    pub closed: bool,
}

/// How a transition on the semaphore's state ended.
#[derive(Clone, Copy, Debug, PartialEq, Eq, Structural)]
pub enum SemOutcome {
    Done,
    TimedOut,
    Closed,
    Overflow,
}

/// The permits that can still be handed out: the capacity minus the permits
/// held, and none once the holders exceed a reduced capacity.
pub open spec fn spec_available(s: SemaphoreState) -> nat {
    if s.held <= s.max_permits { (s.max_permits - s.held) as nat } else { 0 }
}

/// An acquirer has to wait: nothing is available and the semaphore is open.
pub open spec fn spec_must_wait(s: SemaphoreState) -> bool {
    spec_available(s) == 0 && !s.closed
}

/// Taking one permit.
pub open spec fn spec_acquire(s: SemaphoreState) -> (SemaphoreState, SemOutcome) {
    if s.closed {
        (s, SemOutcome::Closed)
    } else if spec_available(s) > 0 {
        (SemaphoreState { held: (s.held + 1) as usize, ..s }, SemOutcome::Done)
    } else {
        (s, SemOutcome::TimedOut)
    }
}

/// Giving one permit back; a closed semaphore no longer counts returns.
pub open spec fn spec_release(s: SemaphoreState) -> SemaphoreState {
    if !s.closed && s.held > 0 {
        SemaphoreState { held: (s.held - 1) as usize, ..s }
    } else {
        s
    }
}

/// Raising the capacity by `count`.
pub open spec fn spec_add_permits(s: SemaphoreState, count: usize) -> (SemaphoreState, SemOutcome) {
    if s.closed {
        (s, SemOutcome::Closed)
    } else if s.max_permits + count > usize::MAX {
        (s, SemOutcome::Overflow)
    } else {
        (SemaphoreState { max_permits: (s.max_permits + count) as usize, ..s }, SemOutcome::Done)
    }
}

/// Lowering the capacity by `count`, but not below zero; held permits stay held.
pub open spec fn spec_remove_permits(s: SemaphoreState, count: usize) -> (SemaphoreState, SemOutcome) {
    if s.closed {
        (s, SemOutcome::Closed)
    } else {
        let remove = if count <= s.max_permits { count } else { s.max_permits };
        (SemaphoreState { max_permits: (s.max_permits - remove) as usize, ..s }, SemOutcome::Done)
    }
}

impl SemaphoreState {
    /// A fresh, open state with `max_permits` permits and none held.
    pub fn new(max_permits: usize) -> (s: Self)
        ensures
            s == (SemaphoreState { max_permits, held: 0, closed: false }),
            spec_available(s) == max_permits,
    {
        SemaphoreState { max_permits, held: 0, closed: false }
    }

    /// The permits that can still be handed out.
    pub fn available(&self) -> (n: usize)
        ensures
            n == spec_available(*self),
    {
        if self.held <= self.max_permits { self.max_permits - self.held } else { 0 }
    }

    /// Whether an acquirer has to wait: nothing is available and the
    /// semaphore is open.
    pub fn must_wait(&self) -> (b: bool)
        ensures
            b == spec_must_wait(*self),
    {
        self.available() == 0 && !self.closed
    }

    /// Takes one permit if the semaphore is open and one is available.
    pub fn try_acquire(&mut self) -> (r: Result<(), SemaphoreError>)
        ensures
            *final(self) == spec_acquire(*old(self)).0,
            match spec_acquire(*old(self)).1 {
                SemOutcome::Done => r is Ok,
                SemOutcome::Closed => r matches Err(SemaphoreError::Closed),
                _ => r matches Err(SemaphoreError::Timeout),
            },
    {
        if self.closed {
            return Err(SemaphoreError::Closed);
        }
        if self.available() > 0 {
            self.held = self.held + 1;
            Ok(())
        } else {
            Err(SemaphoreError::Timeout)
        }
    }

    /// Gives one permit back.
    pub fn release(&mut self)
        ensures
            *final(self) == spec_release(*old(self)),
        opens_invariants none
        no_unwind
    {
        if !self.closed && self.held > 0 {
            self.held = self.held - 1;
        }
    }

    /// Closes the semaphore; every later acquisition fails.
    pub fn close(&mut self)
        ensures
            *final(self) == (SemaphoreState { closed: true, ..*old(self) }),
    {
        self.closed = true;
    }

    /// Raises the capacity by `count`.
    pub fn add_permits(&mut self, count: usize) -> (r: Result<(), SemaphoreError>)
        ensures
            *final(self) == spec_add_permits(*old(self), count).0,
            match spec_add_permits(*old(self), count).1 {
                SemOutcome::Done => r is Ok,
                SemOutcome::Closed => r matches Err(SemaphoreError::Closed),
                _ => r matches Err(SemaphoreError::LockError(_)),
            },
    {
        if self.closed {
            return Err(SemaphoreError::Closed);
        }
        match self.max_permits.checked_add(count) {
            Some(m) => {
                self.max_permits = m;
                Ok(())
            },
            None => Err(SemaphoreError::LockError(String::from_str("permit count overflow"))),
        }
    }

    /// Lowers the capacity by `count` (at most down to zero).
    pub fn remove_permits(&mut self, count: usize) -> (r: Result<(), SemaphoreError>)
        ensures
            *final(self) == spec_remove_permits(*old(self), count).0,
            match spec_remove_permits(*old(self), count).1 {
                SemOutcome::Done => r is Ok,
                _ => r matches Err(SemaphoreError::Closed),
            },
    {
        if self.closed {
            return Err(SemaphoreError::Closed);
        }
        let remove = if count <= self.max_permits { count } else { self.max_permits };
        self.max_permits = self.max_permits - remove;
        Ok(())
    }
}

/// One operation on a semaphore's state.
#[derive(Clone, Copy, Debug, PartialEq, Eq, Structural)]
pub enum SemaphoreOp {
    Acquire,
    Release,
    Close,
    AddPermits(usize),
    RemovePermits(usize),
}

/// The state after one operation.
pub open spec fn spec_apply(s: SemaphoreState, op: SemaphoreOp) -> SemaphoreState {
    match op {
        SemaphoreOp::Acquire => spec_acquire(s).0,
        SemaphoreOp::Release => spec_release(s),
        SemaphoreOp::Close => SemaphoreState { closed: true, ..s },
        SemaphoreOp::AddPermits(n) => spec_add_permits(s, n).0,
        SemaphoreOp::RemovePermits(n) => spec_remove_permits(s, n).0,
    }
}

/// The state after a sequence of operations, first to last.
pub open spec fn spec_run(s: SemaphoreState, ops: Seq<SemaphoreOp>) -> SemaphoreState
    decreases ops.len(),
{
    if ops.len() == 0 {
        s
    } else {
        spec_run(spec_apply(s, ops[0]), ops.drop_first())
    }
}

/// The capacity changes only through adding and removing permits: after any
/// sequence of acquisitions, releases and closing, it is what it was.
pub proof fn lemma_capacity_changes_only_by_add_remove(s: SemaphoreState, ops: Seq<SemaphoreOp>)
    requires
        forall|i: int| 0 <= i < ops.len() ==> !(#[trigger] ops[i] is AddPermits) && !(ops[i] is RemovePermits),
    ensures
        spec_run(s, ops).max_permits == s.max_permits,
    decreases ops.len(),
{
    if ops.len() > 0 {
        let rest = ops.drop_first();
        assert forall|i: int| 0 <= i < rest.len() implies !(#[trigger] rest[i] is AddPermits) && !(rest[i] is RemovePermits) by {
            assert(rest[i] == ops[i + 1]);
        }
        assert(!(ops[0] is AddPermits) && !(ops[0] is RemovePermits));
        lemma_capacity_changes_only_by_add_remove(spec_apply(s, ops[0]), rest);
    }
}

/// While no permits are removed, the holders never exceed the capacity, so
/// the available permits and the held permits add up to the capacity after
/// any sequence of operations.
pub proof fn lemma_available_plus_held_kept(s: SemaphoreState, ops: Seq<SemaphoreOp>)
    requires
        s.held <= s.max_permits,
        forall|i: int| 0 <= i < ops.len() ==> !(#[trigger] ops[i] is RemovePermits),
    ensures
        spec_run(s, ops).held <= spec_run(s, ops).max_permits,
        spec_available(spec_run(s, ops)) + spec_run(s, ops).held == spec_run(s, ops).max_permits,
    decreases ops.len(),
{
    if ops.len() > 0 {
        let rest = ops.drop_first();
        assert forall|i: int| 0 <= i < rest.len() implies !(#[trigger] rest[i] is RemovePermits) by {
            assert(rest[i] == ops[i + 1]);
        }
        assert(!(ops[0] is RemovePermits));
        lemma_available_plus_held_kept(spec_apply(s, ops[0]), rest);
    }
}

/// A permit that is taken and then given back leaves an open semaphore as it was.
pub proof fn lemma_acquire_release_roundtrip(s: SemaphoreState)
    requires
        spec_acquire(s).1 == SemOutcome::Done,
    ensures
        spec_release(spec_acquire(s).0) == s,
{
}

/// While the holders fit within the capacity, the available permits and the
/// held permits add up to the capacity.
pub proof fn lemma_available_plus_held(s: SemaphoreState)
    requires
        s.held <= s.max_permits,
    ensures
        spec_available(s) + s.held == s.max_permits,
{
}

/// Taking a permit lowers the available count by one; refused attempts change nothing.
pub proof fn lemma_acquire_counts(s: SemaphoreState)
    ensures
        spec_acquire(s).1 == SemOutcome::Done ==> spec_available(spec_acquire(s).0) + 1 == spec_available(s),
        spec_acquire(s).1 != SemOutcome::Done ==> spec_acquire(s).0 == s,
{
}

/// A closed semaphore refuses every acquisition and every change of capacity,
/// and returned permits no longer change it.
pub proof fn lemma_closed_refuses(s: SemaphoreState, count: usize)
    requires
        s.closed,
    ensures
        spec_acquire(s) == (s, SemOutcome::Closed),
        spec_add_permits(s, count) == (s, SemOutcome::Closed),
        spec_remove_permits(s, count) == (s, SemOutcome::Closed),
        spec_release(s) == s,
{
}

/// Adding permits and then removing as many restores the capacity.
pub proof fn lemma_add_then_remove(s: SemaphoreState, count: usize)
    requires
        spec_add_permits(s, count).1 == SemOutcome::Done,
    ensures
        spec_remove_permits(spec_add_permits(s, count).0, count) == (s, SemOutcome::Done),
{
}

/// A counting semaphore shared between threads.
pub struct TimeoutSemaphore {
    shared: Arc<SemaphoreShared>,
}

/// A permit acquired from the semaphore; dropping it gives the permit back.
pub struct SemaphorePermit {
    shared: Arc<SemaphoreShared>,
}

impl SemaphorePermit {
    /// The permit goes back to `s` when it is dropped: it shares `s`'s lock
    /// and condition variable.
    pub closed spec fn belongs_to(&self, s: &TimeoutSemaphore) -> bool {
        self.shared == s.shared
    }
}

impl Drop for SemaphorePermit {
    fn drop(&mut self)
        opens_invariants none
        no_unwind
    {
        let mut guard = semaphore_lock(&*self.shared);
        let mut s = semaphore_replace(&mut guard, SemaphoreState { max_permits: 0, held: 0, closed: true });
        let was_closed = s.closed;
        s.release();
        let _ = semaphore_replace(&mut guard, s);
        if !was_closed {
            semaphore_notify_one(&*self.shared);
        }
    }
}

/// Reads the state behind a held lock.
fn read_state<'a>(guard: &mut SemaphoreGuard<'a>) -> (s: SemaphoreState)
    ensures
        final(guard).shared() == old(guard).shared(),
{
    let s = semaphore_replace(guard, SemaphoreState { max_permits: 0, held: 0, closed: true });
    let _ = semaphore_replace(guard, s);
    s
}

impl TimeoutSemaphore {
    /// A semaphore with `max_permits` permits, all available.
    pub fn new(max_permits: usize) -> (r: Self) {
        TimeoutSemaphore { shared: Arc::new(SemaphoreShared::new(SemaphoreState::new(max_permits))) }
    }

    fn permit(&self) -> (p: SemaphorePermit)
        ensures
            p.belongs_to(self),
    {
        SemaphorePermit { shared: arc_clone(&self.shared) }
    }

    /// Tries to take a permit without waiting: it fails with `Closed` when the
    /// semaphore is closed and with `Timeout` when no permit is available.
    pub fn try_acquire(&self) -> (r: Result<SemaphorePermit, SemaphoreError>)
        ensures
            r matches Ok(p) ==> p.belongs_to(self),
            r matches Err(e) ==> e is Closed || e is Timeout,
    {
        let mut guard = semaphore_lock(&*self.shared);
        let mut s = read_state(&mut guard);
        let res = s.try_acquire();
        let _ = semaphore_replace(&mut guard, s);
        match res {
            Ok(()) => Ok(self.permit()),
            Err(e) => Err(e),
        }
    }

    /// Takes a permit, waiting as long as necessary; it fails only when the
    /// semaphore is closed.
    pub fn acquire(&self) -> (r: Result<SemaphorePermit, SemaphoreError>)
        ensures
            r matches Ok(p) ==> p.belongs_to(self),
            r matches Err(e) ==> e is Closed,
    {
        self.acquire_timeout(None)
    }

    /// Takes a permit, waiting at most `timeout` (for ever when `None`). A
    /// permit handed out belongs to this semaphore; it fails with `Closed`
    /// when the semaphore is or becomes closed, and with `Timeout` only when a
    /// time limit ran out.
    pub fn acquire_timeout(&self, timeout: Option<Duration>) -> (r: Result<SemaphorePermit, SemaphoreError>)
        ensures
            r matches Ok(p) ==> p.belongs_to(self),
            r matches Err(e) ==> e is Closed || (e is Timeout && timeout is Some),
    {
        let mut guard = semaphore_lock(&*self.shared);
        let mut s = read_state(&mut guard);
        if s.closed {
            return Err(SemaphoreError::Closed);
        }
        let mut timed_out = false;
        if s.must_wait() {
            match timeout {
                None => {
                    s = semaphore_wait(&mut guard);
                },
                Some(t) => {
                    let (st, flag) = semaphore_wait_for(&mut guard, t);
                    s = st;
                    timed_out = flag;
                },
            }
        }
        if s.closed {
            return Err(SemaphoreError::Closed);
        }
        if timed_out {
            return Err(SemaphoreError::Timeout);
        }
        let res = s.try_acquire();
        let _ = semaphore_replace(&mut guard, s);
        match res {
            Ok(()) => Ok(self.permit()),
            Err(e) => Err(e),
        }
    }

    /// The number of permits that can currently be taken.
    pub fn available_permits(&self) -> (r: Result<usize, SemaphoreError>)
        ensures
            r is Ok,
    {
        let mut guard = semaphore_lock(&*self.shared);
        Ok(read_state(&mut guard).available())
    }

    /// The capacity of the semaphore.
    pub fn max_permits(&self) -> (r: Result<usize, SemaphoreError>)
        ensures
            r is Ok,
    {
        let mut guard = semaphore_lock(&*self.shared);
        Ok(read_state(&mut guard).max_permits)
    }

    /// Closes the semaphore and wakes every waiter.
    pub fn close(&self) {
        let mut guard = semaphore_lock(&*self.shared);
        let mut s = read_state(&mut guard);
        s.close();
        let _ = semaphore_replace(&mut guard, s);
        semaphore_notify_all(&*self.shared);
    }

    /// Raises the capacity by `count` and wakes every waiter; it fails with
    /// `Closed` on a closed semaphore and with `LockError` when the capacity
    /// would overflow.
    pub fn add_permits(&self, count: usize) -> (r: Result<(), SemaphoreError>)
        ensures
            r matches Err(e) ==> e is Closed || e is LockError,
    {
        let mut guard = semaphore_lock(&*self.shared);
        let mut s = read_state(&mut guard);
        let res = s.add_permits(count);
        let _ = semaphore_replace(&mut guard, s);
        if res.is_ok() {
            semaphore_notify_all(&*self.shared);
        }
        res
    }

    /// Lowers the capacity by `count`; permits already taken stay valid. It
    /// fails only on a closed semaphore.
    pub fn remove_permits(&self, count: usize) -> (r: Result<(), SemaphoreError>)
        ensures
            r matches Err(e) ==> e is Closed,
    {
        let mut guard = semaphore_lock(&*self.shared);
        let mut s = read_state(&mut guard);
        let res = s.remove_permits(count);
        let _ = semaphore_replace(&mut guard, s);
        res
    }
}

} // verus!
