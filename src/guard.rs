//! Scoped registration of a reader on the slot it reads.
//!
//! Creating a `ReadGuard` registers one more reader on the slot of the version being read;
//! `release` deregisters it. Until it is released the writer will not overwrite that slot,
//! unless the grace period given to the writer expires first, so the bytes of a read must not
//! be used past that period.
use vstd::prelude::*;

use crate::instance::InstanceVersion;
use crate::state::State;

verus! {

/// A reader's registration on the slot of `version`.
#[derive(Debug)]
pub struct ReadGuard {
    version: InstanceVersion,
}

impl ReadGuard {
    /// Version whose slot this guard holds.
    pub closed spec fn held(&self) -> InstanceVersion {
        self.version
    }

    /// Creates new `ReadGuard`, registering one reader on the slot of `version`.
    pub fn new(state: &mut State, version: InstanceVersion) -> (r: ReadGuard)
        ensures
            r.held() == version,
            final(state).same_except_readers(old(state), version.spec_idx()),
            final(state).readers(version.spec_idx()) == old(state).readers(
                version.spec_idx(),
            ).wrapping_add(1),
    {
        state.rlock(version);
        ReadGuard { version }
    }

    /// Version whose slot this guard holds.
    pub fn version(&self) -> (r: InstanceVersion)
        ensures
            r == self.held(),
    {
        self.version
    }

    /// Deregisters the reader from the slot it held.
    pub fn release(self, state: &mut State)
        ensures
            final(state).same_except_readers(old(state), self.held().spec_idx()),
            final(state).readers(self.held().spec_idx()) == old(state).readers(
                self.held().spec_idx(),
            ).wrapping_sub(1),
    {
        state.runlock(self.version);
    }
}

/// The bytes of one read together with the registration that keeps them from being
/// overwritten.
#[derive(Debug)]
pub struct ReadResult<'a> {
    guard: ReadGuard,
    bytes: &'a [u8],
    switched: bool,
}

impl<'a> ReadResult<'a> {
    /// Bytes of this read.
    pub closed spec fn spec_bytes(&self) -> Seq<u8> {
        self.bytes@
    }

    /// Whether the version differs from the one read before.
    pub closed spec fn spec_switched(&self) -> bool {
        self.switched
    }

    /// Version this read observed.
    pub closed spec fn spec_version(&self) -> InstanceVersion {
        self.guard.held()
    }

    /// Creates new `ReadResult` with specified parameters.
    pub fn new(guard: ReadGuard, bytes: &'a [u8], switched: bool) -> (r: ReadResult<'a>)
        ensures
            r.spec_bytes() == bytes@,
            r.spec_switched() == switched,
            r.spec_version() == guard.held(),
    {
        ReadResult { guard, bytes, switched }
    }

    /// Indicates whether data was switched during last read.
    pub fn is_switched(&self) -> (r: bool)
        ensures
            r == self.spec_switched(),
    {
        self.switched
    }

    /// Bytes of this read.
    pub fn bytes(&self) -> (r: &'a [u8])
        ensures
            r@ == self.spec_bytes(),
    {
        self.bytes
    }

    /// Version this read observed.
    pub fn version(&self) -> (r: InstanceVersion)
        ensures
            r == self.spec_version(),
    {
        self.guard.version()
    }

    /// Ends the read: its registration is released on `state`.
    pub fn release(self, state: &mut State)
        ensures
            final(state).same_except_readers(old(state), self.spec_version().spec_idx()),
            final(state).readers(self.spec_version().spec_idx()) == old(state).readers(
                self.spec_version().spec_idx(),
            ).wrapping_sub(1),
    {
        self.guard.release(state);
    }
}

} // verus!
