//! Trusted bindings to the underlying readers-writer primitive (parking_lot)
//! and to per-thread storage (thread_local). The contracts here are believed,
//! not proved; each item's doc comment names the outside function it relies
//! on. Fairness, starvation policy, and the memory ordering of accesses to
//! the protected value are that primitive's responsibility.

use core::cell::Cell;
use core::sync::atomic::AtomicU64;
use core::sync::atomic::Ordering;
use parking_lot::lock_api::GetThreadId;
use vstd::prelude::*;

verus! {

/// parking_lot's raw readers-writer primitive.
#[verifier::external_type_specification]
#[verifier::external_body]
pub struct ExRawRwLock(parking_lot::RawRwLock);

/// lock_api's reader-writer lock; `parking_lot::RwLock<T>` instantiates it
/// with `parking_lot::RawRwLock`.
#[verifier::external_type_specification]
#[verifier::external_body]
#[verifier::reject_recursive_types(R)]
#[verifier::reject_recursive_types(T)]
pub struct ExRwLock<R, T: ?Sized>(parking_lot::lock_api::RwLock<R, T>);

/// Holds lock_api's RAII handle for shared access. Verus refuses to declare
/// that type itself (its generics carry an outside trait bound), so it sits
/// opaque in this struct; dropping the struct drops the handle, which
/// releases the shared access it stands for.
#[derive(Debug)]
#[verifier::external_body]
#[verifier::reject_recursive_types(T)]
pub(crate) struct SharedHandle<'a, T> {
    inner: parking_lot::RwLockReadGuard<'a, T>,
}

/// Holds lock_api's RAII handle for exclusive access. Verus refuses to
/// declare that type itself (its generics carry an outside trait bound), so
/// it sits opaque in this struct; dropping the struct drops the handle, which
/// releases the exclusive access it stands for.
#[derive(Debug)]
#[verifier::external_body]
#[verifier::reject_recursive_types(T)]
pub(crate) struct ExclusiveHandle<'a, T> {
    inner: parking_lot::RwLockWriteGuard<'a, T>,
}

/// thread_local's container of one value per accessing thread.
#[verifier::external_type_specification]
#[verifier::external_body]
#[verifier::reject_recursive_types(T)]
pub struct ExThreadLocal<T: Send>(thread_local::ThreadLocal<T>);

/// core's single-threaded mutable slot.
#[verifier::external_type_specification]
#[verifier::external_body]
#[verifier::reject_recursive_types(T)]
pub struct ExCell<T: ?Sized>(Cell<T>);

/// Relies on parking_lot::RwLock::new: a fresh primitive, not locked in any
/// way, holding `val`.
#[verifier::external_body]
pub(crate) fn rw_new<T>(val: T) -> parking_lot::RwLock<T> {
    parking_lot::RwLock::new(val)
}

/// Relies on parking_lot::RwLock::is_locked: whether the primitive is held,
/// shared or exclusive, at the moment of the call. Another thread may change
/// that at any time, so nothing relates the answer to later calls.
#[verifier::external_body]
pub(crate) fn rw_is_locked<T>(lock: &parking_lot::RwLock<T>) -> bool {
    lock.is_locked()
}

/// Relies on parking_lot::RwLock::try_read_recursive: without ever blocking,
/// either shared access or nothing. The recursive variant does not wait for
/// queued writers, so it cannot starve a thread that already reads.
#[verifier::external_body]
pub(crate) fn rw_try_read_recursive<'a, T>(
    lock: &'a parking_lot::RwLock<T>,
) -> Option<SharedHandle<'a, T>> {
    lock.try_read_recursive().map(|inner| SharedHandle { inner })
}

/// Relies on parking_lot::RwLock::read_recursive: blocks until shared access
/// is granted, then returns the handle. It waits exactly while a writer holds
/// the primitive; callers keep a thread that itself holds exclusive access
/// from ever reaching this call.
#[verifier::external_body]
pub(crate) fn rw_read_recursive<'a, T>(
    lock: &'a parking_lot::RwLock<T>,
) -> SharedHandle<'a, T> {
    SharedHandle { inner: lock.read_recursive() }
}

/// Relies on parking_lot::RwLock::try_write: without ever blocking, either
/// exclusive access or nothing.
#[verifier::external_body]
pub(crate) fn rw_try_write<'a, T>(
    lock: &'a parking_lot::RwLock<T>,
) -> Option<ExclusiveHandle<'a, T>> {
    lock.try_write().map(|inner| ExclusiveHandle { inner })
}

/// Relies on parking_lot::RwLock::write: blocks until exclusive access is
/// granted, then returns the handle. It waits exactly while any holder,
/// shared or exclusive, remains; callers keep a thread that itself holds
/// access from ever reaching this call.
#[verifier::external_body]
pub(crate) fn rw_write<'a, T>(
    lock: &'a parking_lot::RwLock<T>,
) -> ExclusiveHandle<'a, T> {
    ExclusiveHandle { inner: lock.write() }
}

/// Relies on lock_api::RwLockReadGuard's Deref: a shared borrow of the value
/// the locked primitive protects.
#[verifier::external_body]
pub(crate) fn read_guard_value<'a, 'b, T>(guard: &'b SharedHandle<'a, T>) -> &'b T {
    &*guard.inner
}

/// Relies on lock_api::RwLockWriteGuard's Deref: a shared borrow of the value
/// the locked primitive protects.
#[verifier::external_body]
pub(crate) fn write_guard_value<'a, 'b, T>(guard: &'b ExclusiveHandle<'a, T>) -> &'b T {
    &*guard.inner
}

/// Relies on lock_api::RwLockWriteGuard's DerefMut: overwrites the value the
/// locked primitive protects; only the exclusive holder can reach it.
#[verifier::external_body]
pub(crate) fn write_guard_set<'a, T>(guard: &mut ExclusiveHandle<'a, T>, val: T) {
    *guard.inner = val;
}

/// Relies on parking_lot::RawThreadId::nonzero_thread_id: the address of a
/// thread-local variable, which is never zero and is distinct from every
/// other live thread's. Two calls on one thread agree, but no spec name can
/// stand for the value: it differs between threads and between runs.
#[verifier::external_body]
pub(crate) fn current_thread_id() -> (id: u64)
    ensures
        id != 0,
{
    parking_lot::RawThreadId.nonzero_thread_id().get() as u64
}

/// Relies on thread_local::ThreadLocal::new: a container in which no thread
/// has a value yet.
#[verifier::external_body]
pub(crate) fn counter_per_thread_new() -> thread_local::ThreadLocal<Cell<u64>> {
    thread_local::ThreadLocal::new()
}

/// Relies on thread_local::ThreadLocal::get_or_default and Cell::get: the
/// calling thread's counter, created at zero on the thread's first access.
/// Only the calling thread ever touches its counter, so the value is whatever
/// that thread last stored; that history is runtime state no contract here
/// can carry.
#[verifier::external_body]
pub(crate) fn counter_get(counters: &thread_local::ThreadLocal<Cell<u64>>) -> u64
    opens_invariants none
    no_unwind
{
    counters.get_or_default().get()
}

/// Relies on thread_local::ThreadLocal::get_or_default and Cell::set: stores
/// `value` in the calling thread's counter, creating it first if the thread
/// has none. Allocation failure aborts rather than unwinds.
#[verifier::external_body]
pub(crate) fn counter_set(counters: &thread_local::ThreadLocal<Cell<u64>>, value: u64)
    opens_invariants none
    no_unwind
{
    counters.get_or_default().set(value);
}

/// Relies on core::sync::atomic::AtomicU64::store with relaxed ordering,
/// which neither fails nor unwinds; vstd specifies the call but does not
/// state `no_unwind`, and a guard's drop handler needs that.
#[verifier::external_body]
pub(crate) fn atomic_store_relaxed(slot: &AtomicU64, value: u64)
    opens_invariants none
    no_unwind
{
    slot.store(value, Ordering::Relaxed);
}

} // verus!
