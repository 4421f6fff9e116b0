//! A reader-writer lock that refuses, with a recoverable error, acquisitions
//! that would deadlock the calling thread against itself: requesting exclusive
//! access twice, or requesting exclusive access while still holding shared
//! access on the same lock.

pub mod hash;
pub mod lock;
pub mod owner;
mod raw;

pub use crate::hash::U64Hash;
pub use crate::lock::Lock;
pub use crate::lock::LockError;
pub use crate::lock::ReadGuard;
pub use crate::lock::WriteGuard;

