//! The shared state: the current version word and the number of readers on each data slot.
//!
//! The state lives in a small memory-mapped file shared by every process, where each field is
//! accessed with sequentially consistent atomics. `State` is its value: `rlock`, `runlock` and
//! `switch_version` are the transitions that one fetch-add, fetch-sub or swap performs on it,
//! and `acquire_next_idx` is one round of the writer's wait for a slot that no reader holds.
use vstd::prelude::*;

use crate::instance::{idx_of, unpack_spec, InstanceVersion};
use crate::locks::WriteLockStrategy;
use crate::synchronizer::SynchronizerError;

verus! {

/// Size in bytes of the state file: a `u64` version word followed by two `u32` reader counts.
pub const STATE_SIZE: u64 = 16;

/// Slot that the writer fills next: the one the current version does not use, or slot 0 while
/// nothing has been published.
pub open spec fn next_idx_of(word: u64) -> nat {
    if word == 0 {
        0
    } else {
        ((idx_of(word) + 1) % 2) as nat
    }
}

/// Value of the shared state.
#[derive(Debug)]
pub struct State {
    /// Current data instance version word, zero while nothing is published
    version: u64,
    /// Current number of readers for each data instance
    idx_readers: [u32; 2],
}

/// What the writer does after looking at the reader count of the slot it wants.
#[derive(Clone, Copy, Debug, PartialEq, Eq, Structural)]
pub enum AcquireStep {
    /// The slot has no readers: it may be overwritten.
    Ready(usize),
    /// The grace period expired with readers left: their count is reset to zero (the caller
    /// stores zero into the shared counter of that slot) and the slot may be overwritten.
    ForceReset(usize),
    /// Readers remain and the grace period has not expired: sleep and look again.
    Wait,
}

/// The step the writer takes on a state whose version word is `word` and whose readers on the
/// next slot number `readers`.
pub open spec fn acquire_step_of(word: u64, readers: u32, grace_expired: bool) -> AcquireStep {
    if readers == 0 {
        AcquireStep::Ready(next_idx_of(word) as usize)
    } else if grace_expired {
        AcquireStep::ForceReset(next_idx_of(word) as usize)
    } else {
        AcquireStep::Wait
    }
}

impl State {
    /// The version word.
    pub closed spec fn word(&self) -> u64 {
        self.version
    }

    /// Number of readers registered on slot `idx`.
    pub closed spec fn readers(&self, idx: nat) -> u32 {
        self.idx_readers[idx as int]
    }

    /// Whether `self` and `other` agree everywhere except possibly on slot `idx`'s count.
    pub open spec fn same_except_readers(&self, other: &State, idx: nat) -> bool {
        &&& self.word() == other.word()
        &&& forall|j: nat| j < 2 && j != idx ==> #[trigger] self.readers(j) == other.readers(j)
    }

    /// Whether `self` and `other` hold the same values.
    pub open spec fn same_as(&self, other: &State) -> bool {
        &&& self.word() == other.word()
        &&& self.readers(0) == other.readers(0)
        &&& self.readers(1) == other.readers(1)
    }

    /// Initialize new state with zero values.
    pub fn new() -> (r: State)
        ensures
            r.word() == 0,
            r.readers(0) == 0,
            r.readers(1) == 0,
    {
        State { version: 0, idx_readers: [0, 0] }
    }

    /// State holding the given version word and reader counts.
    pub fn from_parts(version: u64, readers0: u32, readers1: u32) -> (r: State)
        ensures
            r.word() == version,
            r.readers(0) == readers0,
            r.readers(1) == readers1,
    {
        State { version, idx_readers: [readers0, readers1] }
    }

    /// The raw version word.
    pub fn version_word(&self) -> (r: u64)
        ensures
            r == self.word(),
    {
        self.version
    }

    /// Number of readers registered on slot `idx`.
    pub fn idx_readers(&self, idx: usize) -> (r: u32)
        requires
            idx < 2,
        ensures
            r == self.readers(idx as nat),
    {
        self.idx_readers[idx]
    }

    /// Return state's current instance version.
    pub fn version(&self) -> (r: Result<InstanceVersion, SynchronizerError>)
        ensures
            r == unpack_spec(self.word()),
    {
        if self.version == 0 {
            Err(SynchronizerError::UninitializedState)
        } else {
            Ok(InstanceVersion(self.version))
        }
    }

    /// Locks given `version` of the state for reading: one more reader on its slot.
    pub fn rlock(&mut self, version: InstanceVersion)
        ensures
            final(self).same_except_readers(old(self), version.spec_idx()),
            final(self).readers(version.spec_idx()) == old(self).readers(
                version.spec_idx(),
            ).wrapping_add(1),
    {
        let i = version.idx();
        self.idx_readers[i] = self.idx_readers[i].wrapping_add(1);
    }

    /// Unlocks given `version` from reading: one reader fewer on its slot.
    pub fn runlock(&mut self, version: InstanceVersion)
        ensures
            final(self).same_except_readers(old(self), version.spec_idx()),
            final(self).readers(version.spec_idx()) == old(self).readers(
                version.spec_idx(),
            ).wrapping_sub(1),
    {
        let i = version.idx();
        self.idx_readers[i] = self.idx_readers[i].wrapping_sub(1);
    }

    /// Switch state to given `version`, so that new readers use it.
    pub fn switch_version(&mut self, version: InstanceVersion)
        ensures
            final(self).word() == version.word(),
            final(self).readers(0) == old(self).readers(0),
            final(self).readers(1) == old(self).readers(1),
    {
        self.version = version.0;
    }

    /// Slot that the writer fills next.
    pub fn next_idx(&self) -> (r: usize)
        ensures
            r == next_idx_of(self.word()),
            r < 2,
    {
        match InstanceVersion::try_from(self.version) {
            Ok(version) => (version.idx() + 1) % 2,
            Err(_) => 0,
        }
    }

    /// One round of acquiring the next slot for writing.
    ///
    /// The writer may overwrite the next slot once no reader holds it. While readers remain it
    /// waits; once `grace_expired` (the grace period ran out) it assumes those readers died
    /// without deregistering, resets their count to zero and goes ahead.
    pub fn acquire_next_idx(&mut self, grace_expired: bool) -> (r: AcquireStep)
        ensures
            r == acquire_step_of(
                old(self).word(),
                old(self).readers(next_idx_of(old(self).word())),
                grace_expired,
            ),
            r is ForceReset ==> final(self).readers(next_idx_of(old(self).word())) == 0
                && final(self).same_except_readers(old(self), next_idx_of(old(self).word())),
            !(r is ForceReset) ==> final(self).same_as(old(self)),
    {
        let next = self.next_idx();
        if self.idx_readers[next] == 0 {
            AcquireStep::Ready(next)
        } else if grace_expired {
            self.idx_readers[next] = 0;
            AcquireStep::ForceReset(next)
        } else {
            AcquireStep::Wait
        }
    }
}

impl Default for State {
    fn default() -> (r: State)
        ensures
            r.word() == 0,
            r.readers(0) == 0,
            r.readers(1) == 0,
    {
        State::new()
    }
}

/// A writer never takes a slot that a registered reader still holds: a slot it is handed
/// without a forced reset has no readers, and a forced reset only comes once the grace period
/// has expired.
pub proof fn lemma_held_slot_never_ready(s: State, held: nat, grace_expired: bool)
    requires
        held < 2,
        s.readers(held) > 0,
    ensures
        acquire_step_of(s.word(), s.readers(next_idx_of(s.word())), grace_expired) matches
            AcquireStep::Ready(i) ==> i != held,
        acquire_step_of(s.word(), s.readers(next_idx_of(s.word())), grace_expired) is ForceReset
            ==> grace_expired,
{
}

/// While no reader is registered, writes are never held up and alternate between the two
/// slots: after a write publishes `first` into the slot it was handed, the next write is
/// handed the other slot, so two writes in a row fill both data files.
pub proof fn lemma_unread_writes_alternate(s: State, first: InstanceVersion, grace_expired: bool)
    requires
        s.readers(0) == 0,
        s.readers(1) == 0,
        first.word() != 0,
        first.spec_idx() == next_idx_of(s.word()),
    ensures
        acquire_step_of(s.word(), s.readers(next_idx_of(s.word())), grace_expired)
            == AcquireStep::Ready(first.spec_idx() as usize),
        acquire_step_of(first.word(), 0, grace_expired) == AcquireStep::Ready(
            (1 - first.spec_idx()) as usize,
        ),
{
}

/// Path of the state file under `prefix`: `<prefix>_state`.
pub open spec fn state_path_of(prefix: Seq<char>) -> Seq<char> {
    prefix + "_state"@
}

/// State container: where the state file lives and the policy that grants write access to it.
pub struct StateContainer<WL> {
    /// State file path
    state_path: String,
    /// Write lock strategy guarding writes to the state
    lock: WL,
}

impl<WL: WriteLockStrategy> StateContainer<WL> {
    /// Path of the state file.
    pub closed spec fn path(&self) -> Seq<char> {
        self.state_path@
    }

    /// Whether write access to the state is granted.
    pub closed spec fn write_granted(&self) -> bool {
        self.lock.holds_lock()
    }

    /// Create new instance of `StateContainer` for the files under `path_prefix`.
    pub fn new(path_prefix: &str) -> (r: StateContainer<WL>)
        ensures
            r.path() == state_path_of(path_prefix@),
            r.write_granted() == WL::granted_on_creation(),
    {
        let state_path = String::from_str(path_prefix).concat("_state");
        StateContainer { state_path, lock: WL::new() }
    }

    /// Path of the state file.
    pub fn state_path(&self) -> (r: &str)
        ensures
            r@ == self.path(),
    {
        self.state_path.as_str()
    }

    /// Decide, from the outcome of opening the state file and reading its length, whether the
    /// file must be set to exactly `STATE_SIZE` bytes and zero-filled (which is a valid initial
    /// state) before it is mapped.
    pub fn prepare_mmap(opened: Result<u64, std::io::Error>) -> (r: Result<bool, SynchronizerError>)
        ensures
            opened is Ok <==> r is Ok,
            opened is Ok ==> r->Ok_0 == (opened->Ok_0 != STATE_SIZE),
            r is Err ==> r->Err_0 is FailedStateRead,
    {
        match opened {
            Ok(len) => Ok(len != STATE_SIZE),
            Err(e) => Err(SynchronizerError::FailedStateRead(e)),
        }
    }

    /// Obtain write access to the state as the lock strategy specifies; `file_lock` makes one
    /// non-blocking attempt at the exclusive lock of the state file.
    pub fn lock<F: FnOnce() -> bool>(&mut self, file_lock: F) -> (r: Result<(), SynchronizerError>)
        requires
            file_lock.requires(()),
        ensures
            old(self).write_granted() ==> r is Ok,
            r is Ok <==> final(self).write_granted(),
            r is Err ==> r->Err_0 is WriteLockConflict && call_ensures(file_lock, (), false),
            r is Ok && !old(self).write_granted() ==> call_ensures(file_lock, (), true),
            final(self).path() == old(self).path(),
    {
        self.lock.lock(file_lock)
    }
}

} // verus!
