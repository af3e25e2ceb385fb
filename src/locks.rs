//! Write lock strategies.
//!
//! Only one writer may be active at a time. `LockDisabled` leaves that to the caller;
//! `SingleWriter` takes an exclusive advisory lock on the state file the first time it writes
//! and holds it for as long as the state file stays open. Mixing strategies between writers of
//! one prefix disables the check for some of them and is the caller's responsibility.
use vstd::prelude::*;

use crate::synchronizer::SynchronizerError;

verus! {

/// Policy that decides whether this process may write the shared state.
pub trait WriteLockStrategy: Sized {
    /// Whether write access is currently granted.
    spec fn holds_lock(&self) -> bool;

    /// Whether a new instance grants write access before any lock is taken.
    spec fn granted_on_creation() -> bool;

    /// Create a new instance of this lock strategy.
    fn new() -> (r: Self)
        ensures
            r.holds_lock() == Self::granted_on_creation(),
    ;

    /// Acquire the lock as the strategy specifies.
    ///
    /// `file_lock` makes one non-blocking attempt at the exclusive file lock and says whether it
    /// was obtained; it is called at most once, and only while the lock is not yet held.
    fn lock<F: FnOnce() -> bool>(&mut self, file_lock: F) -> (r: Result<(), SynchronizerError>)
        requires
            file_lock.requires(()),
        ensures
            old(self).holds_lock() ==> r is Ok,
            r is Ok <==> final(self).holds_lock(),
            r is Err ==> r->Err_0 is WriteLockConflict && call_ensures(file_lock, (), false),
            r is Ok && !old(self).holds_lock() ==> call_ensures(file_lock, (), true),
    ;
}

/// Lock protection is disabled: callers must ensure that only a single writer is active.
#[derive(Debug)]
pub struct LockDisabled;

impl WriteLockStrategy for LockDisabled {
    open spec fn holds_lock(&self) -> bool {
        true
    }

    open spec fn granted_on_creation() -> bool {
        true
    }

    fn new() -> (r: LockDisabled) {
        LockDisabled
    }

    fn lock<F: FnOnce() -> bool>(&mut self, file_lock: F) -> (r: Result<(), SynchronizerError>) {
        Ok(())
    }
}

/// Acquire the file lock on the first write and hold it until the state file is closed.
#[derive(Debug)]
pub struct SingleWriter {
    locked: bool,
}

impl SingleWriter {
    /// Whether the file lock was obtained.
    pub fn is_locked(&self) -> (r: bool)
        ensures
            r == self.holds_lock(),
    {
        self.locked
    }
}

impl WriteLockStrategy for SingleWriter {
    closed spec fn holds_lock(&self) -> bool {
        self.locked
    }

    open spec fn granted_on_creation() -> bool {
        false
    }

    fn new() -> (r: SingleWriter) {
        SingleWriter { locked: false }
    }

    fn lock<F: FnOnce() -> bool>(&mut self, file_lock: F) -> (r: Result<(), SynchronizerError>) {
        // We already hold the lock, so return success.
        if self.locked {
            return Ok(());
        }
        if file_lock() {
            // Hold the lock until the state file is closed.
            self.locked = true;
            Ok(())
        } else {
            Err(SynchronizerError::WriteLockConflict)
        }
    }
}

} // verus!
