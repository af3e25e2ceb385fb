use mmap_sync::guard::ReadGuard;
use mmap_sync::instance::InstanceVersion;
use mmap_sync::locks::{LockDisabled, SingleWriter, WriteLockStrategy};
use mmap_sync::state::{AcquireStep, State, StateContainer, STATE_SIZE};
use mmap_sync::synchronizer::{Publication, SynchronizerError, WriteAction, WriteEvent};
use std::cell::Cell;

/// Stands for an open state file: a lock taken through it is released when it is dropped, as
/// the kernel releases an advisory lock when its descriptor is closed.
struct Descriptor<'a> {
    lock: &'a Cell<bool>,
    holds: Cell<bool>,
}

impl<'a> Descriptor<'a> {
    fn open(lock: &'a Cell<bool>) -> Self {
        Descriptor { lock, holds: Cell::new(false) }
    }

    /// One non-blocking attempt at the exclusive lock.
    fn try_flock(&self) -> bool {
        if self.holds.get() {
            true
        } else if self.lock.get() {
            false
        } else {
            self.lock.set(true);
            self.holds.set(true);
            true
        }
    }
}

impl Drop for Descriptor<'_> {
    fn drop(&mut self) {
        if self.holds.get() {
            self.lock.set(false);
        }
    }
}

/// A writer's state container together with the open state file it locks through.
struct Writer<'a> {
    state: StateContainer<SingleWriter>,
    file: Descriptor<'a>,
}

impl<'a> Writer<'a> {
    fn open(prefix: &str, lock: &'a Cell<bool>) -> Self {
        Writer { state: StateContainer::new(prefix), file: Descriptor::open(lock) }
    }

    fn lock(&mut self) -> Result<(), SynchronizerError> {
        let file = &self.file;
        self.state.lock(|| file.try_flock())
    }
}

#[test]
fn single_writer_lock_mode_prevents_duplicate_writer() {
    let lock = Cell::new(false);
    let mut state1 = Writer::open("/tmp/single_writer_lock_test", &lock);
    let mut state2 = Writer::open("/tmp/single_writer_lock_test", &lock);

    assert!(state1.lock().is_ok());
    assert!(matches!(state2.lock(), Err(SynchronizerError::WriteLockConflict)));
}

#[test]
fn single_writer_lock_freed_on_drop() {
    let lock = Cell::new(false);
    let mut state1 = Writer::open("/tmp/single_writer_lock_drop_test", &lock);
    let mut state2 = Writer::open("/tmp/single_writer_lock_drop_test", &lock);

    assert!(state1.lock().is_ok());
    drop(state1);
    assert!(state2.lock().is_ok());
}

#[test]
fn single_writer_lock_prevents_multiple_writers() {
    let lock = Cell::new(false);
    let mut writer1 = Writer::open("/tmp/synchronizer_single_writer", &lock);
    let mut writer2 = Writer::open("/tmp/synchronizer_single_writer", &lock);
    let data = [7u8; 100];

    let (mut p1, _) = Publication::start(&data);
    let action = p1.step(WriteEvent::StateReady(writer1.lock()));
    assert!(matches!(action, WriteAction::AcquireSlot));

    let (mut p2, _) = Publication::start(&data);
    let action = p2.step(WriteEvent::StateReady(writer2.lock()));
    assert!(matches!(action, WriteAction::Done(Err(SynchronizerError::WriteLockConflict))));

    // once the first writer is gone its lock is released and the second may write
    drop(writer1);
    let (mut p3, _) = Publication::start(&data);
    let action = p3.step(WriteEvent::StateReady(writer2.lock()));
    assert!(matches!(action, WriteAction::AcquireSlot));
}

#[test]
fn single_writer_keeps_its_lock_without_asking_again() {
    let mut lock = SingleWriter::new();
    assert!(!lock.is_locked());
    assert!(lock.lock(|| true).is_ok());
    assert!(lock.is_locked());
    assert!(lock.lock(|| panic!("the lock is already held")).is_ok());
    let mut other = SingleWriter::new();
    assert!(matches!(other.lock(|| false), Err(SynchronizerError::WriteLockConflict)));
    assert!(!other.is_locked());
}

#[test]
fn disabled_lock_always_grants() {
    let mut lock = LockDisabled::new();
    assert!(lock.lock(|| panic!("no file lock is taken")).is_ok());
    let mut state = StateContainer::<LockDisabled>::new("/tmp/t1");
    assert!(state.lock(|| false).is_ok());
}

#[test]
fn state_path_and_preparation() {
    let state = StateContainer::<LockDisabled>::new("/tmp/t1");
    assert_eq!(state.state_path(), "/tmp/t1_state");
    assert_eq!(STATE_SIZE, 16);
    assert!(matches!(StateContainer::<LockDisabled>::prepare_mmap(Ok(0)), Ok(true)));
    assert!(matches!(StateContainer::<LockDisabled>::prepare_mmap(Ok(16)), Ok(false)));
    assert!(matches!(StateContainer::<LockDisabled>::prepare_mmap(Ok(32)), Ok(true)));
}

#[test]
fn empty_then_first_read() {
    // the state file does not exist yet
    let missing = std::io::Error::from_raw_os_error(2);
    let res = StateContainer::<LockDisabled>::prepare_mmap(Err(missing));
    let err = res.err().unwrap();
    assert!(matches!(err, SynchronizerError::FailedStateRead(_)));
    assert_eq!(
        err.message(),
        "error reading state file: No such file or directory (os error 2)"
    );
    // a fresh, zero-filled state holds no version
    assert!(matches!(State::new().version(), Err(SynchronizerError::UninitializedState)));
}

#[test]
fn state_transitions() {
    let mut state = State::default();
    assert_eq!(state.version_word(), 0);
    assert_eq!(state.next_idx(), 0);
    let v = InstanceVersion::new(1, 10, 3).unwrap();
    state.switch_version(v);
    assert_eq!(state.version().unwrap(), v);
    assert_eq!(state.next_idx(), 0);
    state.rlock(v);
    state.rlock(v);
    assert_eq!(state.idx_readers(1), 2);
    assert_eq!(state.idx_readers(0), 0);
    state.runlock(v);
    assert_eq!(state.idx_readers(1), 1);
    let parts = State::from_parts(u64::from(v), 4, u32::MAX);
    assert_eq!(parts.idx_readers(0), 4);
    assert_eq!(parts.idx_readers(1), u32::MAX);
    assert_eq!(parts.version_word(), u64::from(v));
}

#[test]
fn reader_counts_wrap_like_atomics() {
    let v = InstanceVersion::new(0, 1, 0).unwrap();
    let mut state = State::from_parts(0, u32::MAX, 0);
    state.rlock(v);
    assert_eq!(state.idx_readers(0), 0);
    state.runlock(v);
    assert_eq!(state.idx_readers(0), u32::MAX);
}

#[test]
fn read_guard_registers_and_releases() {
    let mut state = State::new();
    let v = InstanceVersion::new(0, 5, 9).unwrap();
    state.switch_version(v);
    let guard = ReadGuard::new(&mut state, v);
    assert_eq!(guard.version(), v);
    assert_eq!(state.idx_readers(0), 1);
    assert_eq!(state.idx_readers(1), 0);
    guard.release(&mut state);
    assert_eq!(state.idx_readers(0), 0);
}

#[test]
fn writer_alternates_slots() {
    let mut state = State::new();
    assert_eq!(state.acquire_next_idx(false), AcquireStep::Ready(0));
    let first = InstanceVersion::new(0, 7, 1).unwrap();
    state.switch_version(first);
    assert_eq!(state.acquire_next_idx(false), AcquireStep::Ready(1));
    let second = InstanceVersion::new(1, 7, 1).unwrap();
    state.switch_version(second);
    assert_eq!(state.acquire_next_idx(false), AcquireStep::Ready(0));
}

#[test]
fn writer_waits_for_readers_of_the_next_slot() {
    let mut state = State::new();
    let v0 = InstanceVersion::new(0, 7, 1).unwrap();
    state.switch_version(v0);
    // a reader still holds slot 1 from an older version
    let old = InstanceVersion::new(1, 3, 1).unwrap();
    let guard = ReadGuard::new(&mut state, old);
    assert_eq!(state.acquire_next_idx(false), AcquireStep::Wait);
    assert_eq!(state.idx_readers(1), 1);
    guard.release(&mut state);
    assert_eq!(state.acquire_next_idx(false), AcquireStep::Ready(1));
}

#[test]
fn readers_of_the_current_slot_do_not_block_the_writer() {
    let mut state = State::new();
    let v0 = InstanceVersion::new(0, 7, 1).unwrap();
    state.switch_version(v0);
    let _guard = ReadGuard::new(&mut state, v0);
    assert_eq!(state.acquire_next_idx(false), AcquireStep::Ready(1));
    assert_eq!(state.idx_readers(0), 1);
}

#[test]
fn grace_reset() {
    let mut state = State::new();
    let v = InstanceVersion::new(1, 8, 2).unwrap();
    state.switch_version(v);
    // a crashed reader left its registration on the next slot
    state.rlock(InstanceVersion::new(0, 8, 2).unwrap());
    assert_eq!(state.acquire_next_idx(false), AcquireStep::Wait);
    assert_eq!(state.acquire_next_idx(true), AcquireStep::ForceReset(0));
    assert_eq!(state.idx_readers(0), 0);
    assert_eq!(state.idx_readers(1), 0);
    let next = InstanceVersion::new(0, 8, 5).unwrap();
    state.switch_version(next);
    assert_eq!(state.version().unwrap(), next);
}
