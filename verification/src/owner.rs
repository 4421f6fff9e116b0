//! Tracks which single thread, if any, currently holds exclusive access to a
//! lock. The slot is a relaxed atomic: correctness rests only on a thread
//! reading back what it itself stored, never on cross-thread ordering of the
//! protected value, which the underlying primitive's own fences supply.

use crate::raw;
use core::sync::atomic::AtomicU64;
use core::sync::atomic::Ordering;
use vstd::prelude::*;

verus! {

/// The slot value that means no thread holds exclusive access; thread
/// identifiers are never zero.
pub const UNOWNED: u64 = 0;

/// Whether a slot holding `id` records the thread `thread_id` as the
/// exclusive owner: only a non-sentinel entry equal to that thread's
/// identifier does.
pub open spec fn records_owner(id: u64, thread_id: u64) -> bool {
    id != UNOWNED && id == thread_id
}

/// A thread that stored its own (never zero) identifier reads itself back as
/// the owner.
pub proof fn lemma_own_store_matches(thread_id: u64)
    requires
        thread_id != UNOWNED,
    ensures
        records_owner(thread_id, thread_id),
{
}

/// The sentinel records no thread at all as owner.
pub proof fn lemma_unowned_matches_no_thread(thread_id: u64)
    ensures
        !records_owner(UNOWNED, thread_id),
{
}

/// Decides `records_owner` on plain values.
pub(crate) fn owner_id_matches(id: u64, thread_id: u64) -> (r: bool)
    ensures
        r == records_owner(id, thread_id),
{
    id != UNOWNED && id == thread_id
}

/// An atomic slot holding either the sentinel or the identifier of the
/// thread currently holding exclusive access.
#[derive(Debug)]
pub(crate) struct Owner {
    owner: AtomicU64,
}

impl Owner {
    /// A slot holding the sentinel: no owner.
    pub(crate) fn new() -> Owner {
        Owner { owner: AtomicU64::new(UNOWNED) }
    }

    /// Whether the slot records the calling thread as the exclusive owner,
    /// per `records_owner` applied to the slot's value at the moment of the
    /// load and the calling thread's identifier.
    pub(crate) fn is_current_thread(&self) -> bool {
        let id = self.owner.load(Ordering::Relaxed);
        let thread_id = raw::current_thread_id();
        owner_id_matches(id, thread_id)
    }

    /// Records the calling thread as exclusive owner. Reached only just after
    /// the calling thread won the underlying primitive's exclusive acquire,
    /// which is what keeps two threads from racing to this store.
    pub(crate) fn take_ownership(&self) {
        let thread_id = raw::current_thread_id();
        self.owner.store(thread_id, Ordering::Relaxed);
    }

    /// Resets the slot to the sentinel. Reached only from the drop handler of
    /// the guard whose construction recorded the owner; that handle cannot
    /// move to another thread, so the recorded owner itself releases.
    pub(crate) fn release_ownership(&self)
        opens_invariants none
        no_unwind
    {
        raw::atomic_store_relaxed(&self.owner, UNOWNED);
    }
}

} // verus!
