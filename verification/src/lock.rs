//! A reader-writer lock that consults its own bookkeeping before delegating
//! to the underlying primitive, so that a thread re-entering the lock in an
//! incompatible mode gets an immediate, recoverable error instead of an
//! unrecoverable hang.
//!
//! Two pieces of bookkeeping supply what the primitive lacks, an awareness of
//! *which thread* already holds access:
//! - an [`Owner`] slot naming the thread that holds exclusive access, and
//! - a per-thread counter of live shared handles on this lock, held in
//!   per-thread storage so no other thread ever touches it.
//!
//! Only the blocking acquisitions consult the bookkeeping: a non-blocking
//! attempt can never block, so it cannot self-deadlock, and it simply reports
//! what the primitive answered. That choice is applied uniformly to
//! `try_read_shared` and `try_write_exclusive`.

use crate::owner::Owner;
use crate::raw;
use core::cell::Cell;
use core::ops::Deref;
use thread_local::ThreadLocal;
use vstd::prelude::*;

verus! {

/// Whether a blocking exclusive acquisition must be refused outright:
/// the calling thread already holds exclusive access to this very lock
/// (`owned_by_current`), or it still holds shared access to it
/// (`read_held`). In either case the primitive would wait forever for the
/// caller itself to release.
pub open spec fn write_would_self_deadlock(owned_by_current: bool, read_held: bool) -> bool {
    owned_by_current || read_held
}

/// Whether a blocking shared acquisition must be refused outright: only when
/// the calling thread itself holds exclusive access to this very lock. Shared
/// access already held is no obstacle, since the primitive admits recursive
/// readers.
pub open spec fn read_would_self_deadlock(owned_by_current: bool) -> bool {
    owned_by_current
}

/// A thread that holds exclusive access is refused a second exclusive
/// acquisition, whatever its shared holdings: it gets the error, never a
/// block.
pub proof fn lemma_write_refused_while_owning(read_held: bool)
    ensures
        write_would_self_deadlock(true, read_held),
{
}

/// A thread that still holds shared access is refused exclusive acquisition,
/// whether or not it also appears as exclusive owner.
pub proof fn lemma_write_refused_while_reading(owned_by_current: bool)
    ensures
        write_would_self_deadlock(owned_by_current, true),
{
}

/// A thread that holds nothing on this lock is refused nothing by the
/// bookkeeping: both blocking acquisitions go through to the primitive.
pub proof fn lemma_idle_thread_never_refused()
    ensures
        !write_would_self_deadlock(false, false),
        !read_would_self_deadlock(false),
{
}

/// Decides `write_would_self_deadlock` on plain values.
pub(crate) fn write_acquisition_refused(owned_by_current: bool, read_held: bool) -> (r: bool)
    ensures
        r == write_would_self_deadlock(owned_by_current, read_held),
{
    owned_by_current || read_held
}

/// One more live shared handle: the per-thread count grows by one, pinned at
/// the top of the range it can never reach in practice.
pub open spec fn one_more_read(count: u64) -> u64 {
    if count == u64::MAX {
        count
    } else {
        (count + 1) as u64
    }
}

/// One shared handle gone: the per-thread count shrinks by one, pinned at
/// zero.
pub open spec fn one_less_read(count: u64) -> u64 {
    if count == 0 {
        0u64
    } else {
        (count - 1) as u64
    }
}

/// Releasing as many shared handles as were taken returns the per-thread
/// count to where it began; in particular, a thread that balanced two nested
/// reads no longer counts as reading.
pub proof fn lemma_balanced_reads_release(count: u64)
    requires
        count + 2 <= u64::MAX,
    ensures
        one_less_read(one_less_read(one_more_read(one_more_read(count)))) == count,
{
}

/// Computes `one_more_read` on the plain count.
fn count_one_more_read(count: u64) -> (r: u64)
    ensures
        r == one_more_read(count),
{
    if count == u64::MAX {
        count
    } else {
        count + 1
    }
}

/// Computes `one_less_read` on the plain count.
fn count_one_less_read(count: u64) -> (r: u64)
    ensures
        r == one_less_read(count),
    opens_invariants none
    no_unwind
{
    if count == 0 {
        0
    } else {
        count - 1
    }
}

/// The recoverable refusal: the requested acquisition would certainly block
/// the calling thread forever against access it itself already holds, so
/// nothing was attempted on the underlying primitive.
#[derive(Debug)]
pub struct LockError {}

impl LockError {
    /// The fixed human-readable description of the refusal.
    pub fn message(&self) -> (r: &'static str)
        ensures
            r@ == "a lock is already owned by the current thread"@,
    {
        "a lock is already owned by the current thread"
    }
}

/// A reader-writer lock over a protected value of type `T`, composed of the
/// underlying primitive, the exclusive-owner slot, and the per-thread count
/// of live shared handles, which keeps a writer from silently deadlocking
/// against itself.
#[derive(Debug)]
#[verifier::reject_recursive_types(T)]
pub struct Lock<T> {
    exclusive_owner: Owner,
    read_locks: ThreadLocal<Cell<u64>>,
    rw_lock: parking_lot::RwLock<T>,
}

impl<T> Lock<T> {
    /// A fresh lock around `val`: the primitive unlocked, no owner recorded,
    /// no thread counted as reading.
    pub fn new(val: T) -> Lock<T> {
        Lock {
            exclusive_owner: Owner::new(),
            read_locks: raw::counter_per_thread_new(),
            rw_lock: raw::rw_new(val),
        }
    }

    /// Whether the underlying primitive is held in any way at the moment of
    /// the call.
    pub fn is_locked(&self) -> bool {
        raw::rw_is_locked(&self.rw_lock)
    }

    /// Whether the lock is held and the exclusive-owner slot records the
    /// calling thread.
    pub fn is_owned_by_current_thread(&self) -> bool {
        self.is_locked() && self.exclusive_owner.is_current_thread()
    }

    /// Attempts a non-blocking recursive shared acquisition. On success the
    /// calling thread's read count grows by one and a handle comes back; if
    /// the primitive refuses (a writer holds it), nothing comes back. Never
    /// blocks, never errs.
    pub fn try_read_shared(&self) -> Option<ReadGuard<'_, T>> {
        if let Some(handle) = raw::rw_try_read_recursive(&self.rw_lock) {
            self.add_read_lock();
            Some(ReadGuard { lock: self, guard: handle })
        } else {
            None
        }
    }

    /// Blocking shared acquisition. Refused immediately, without touching the
    /// primitive, when the calling thread itself holds exclusive access to
    /// this lock: waiting would deadlock against its own write handle.
    /// Otherwise blocks until the primitive grants shared access, counts the
    /// read, and returns the handle.
    pub fn read_shared(&self) -> Result<ReadGuard<'_, T>, LockError> {
        if self.is_owned_by_current_thread() {
            return Err(LockError {});
        }
        let handle = raw::rw_read_recursive(&self.rw_lock);
        self.add_read_lock();
        Ok(ReadGuard { lock: self, guard: handle })
    }

    /// Attempts a non-blocking exclusive acquisition. On success the calling
    /// thread is recorded as exclusive owner and a handle comes back;
    /// otherwise nothing comes back. Never blocks, never errs.
    pub fn try_write_exclusive(&self) -> Option<WriteGuard<'_, T>> {
        if let Some(handle) = raw::rw_try_write(&self.rw_lock) {
            self.exclusive_owner.take_ownership();
            Some(WriteGuard { lock: self, guard: handle })
        } else {
            None
        }
    }

    /// Blocking exclusive acquisition. Refused immediately, without touching
    /// the primitive, when the calling thread already holds exclusive access
    /// to this lock or still holds shared access to it — the two cases of
    /// `write_would_self_deadlock`. Otherwise blocks until the primitive
    /// grants exclusive access, records the owner, and returns the handle.
    pub fn write_exclusive(&self) -> Result<WriteGuard<'_, T>, LockError> {
        let owned_by_current = self.is_owned_by_current_thread();
        let read_held = self.is_read_lock_held();
        if write_acquisition_refused(owned_by_current, read_held) {
            return Err(LockError {});
        }
        let handle = raw::rw_write(&self.rw_lock);
        self.exclusive_owner.take_ownership();
        Ok(WriteGuard { lock: self, guard: handle })
    }

    /// Whether the calling thread currently counts as holding shared access
    /// to this lock.
    pub(crate) fn is_read_lock_held(&self) -> bool {
        raw::counter_get(&self.read_locks) > 0
    }

    /// Counts one more live shared handle for the calling thread.
    pub(crate) fn add_read_lock(&self) {
        let count = raw::counter_get(&self.read_locks);
        raw::counter_set(&self.read_locks, count_one_more_read(count));
    }

    /// Counts one shared handle of the calling thread gone.
    pub(crate) fn remove_read_lock(&self)
        opens_invariants none
        no_unwind
    {
        let count = raw::counter_get(&self.read_locks);
        raw::counter_set(&self.read_locks, count_one_less_read(count));
    }
}

/// RAII handle for exclusive access: while it lives, its thread is recorded
/// as exclusive owner; destruction resets the owner slot and then releases
/// the primitive. It grants read and write access to the protected value.
#[derive(Debug)]
#[must_use]
#[verifier::reject_recursive_types(T)]
pub struct WriteGuard<'a, T> {
    lock: &'a Lock<T>,
    guard: raw::ExclusiveHandle<'a, T>,
}

/// RAII handle for shared access: while it lives, it is counted in its
/// thread's read count for the lock; destruction uncounts it and then
/// releases the primitive. It grants read access to the protected value.
#[derive(Debug)]
#[must_use]
#[verifier::reject_recursive_types(T)]
pub struct ReadGuard<'a, T> {
    lock: &'a Lock<T>,
    guard: raw::SharedHandle<'a, T>,
}

impl<'a, T> WriteGuard<'a, T> {
    /// Overwrites the protected value, which only this exclusive handle can
    /// reach.
    pub fn set(&mut self, val: T) {
        raw::write_guard_set(&mut self.guard, val);
    }
}

impl<'a, T> Deref for WriteGuard<'a, T> {
    type Target = T;

    /// The protected value, readable while exclusive access lasts.
    fn deref(&self) -> &T {
        raw::write_guard_value(&self.guard)
    }
}

impl<'a, T> Deref for ReadGuard<'a, T> {
    type Target = T;

    /// The protected value, readable while shared access lasts.
    fn deref(&self) -> &T {
        raw::read_guard_value(&self.guard)
    }
}

impl<'a, T> Drop for WriteGuard<'a, T> {
    /// Resets the exclusive-owner slot; the handle inside then drops, which
    /// releases the primitive. The guard cannot move to another thread, so
    /// the recorded owner itself is the thread releasing.
    fn drop(&mut self)
        opens_invariants none
        no_unwind
    {
        self.lock.exclusive_owner.release_ownership();
    }
}

impl<'a, T> Drop for ReadGuard<'a, T> {
    /// Uncounts this handle from its thread's read count; the handle inside
    /// then drops, which releases the shared access.
    fn drop(&mut self)
        opens_invariants none
        no_unwind
    {
        self.lock.remove_read_lock();
    }
}

} // verus!
