use mmap_sync::instance::InstanceVersion;
use mmap_sync::synchronizer::{
    Publication, SynchronizerError, WriteAction, WriteEvent, WritePhase,
};
use std::hash::Hasher;

#[test]
fn publication_runs_prepare_acquire_write_publish() {
    let data = b"Hello World !";
    let (mut p, action) = Publication::start(data);
    assert!(matches!(action, WriteAction::PrepareState));
    assert_eq!(p.current_phase(), WritePhase::Preparing);

    assert!(matches!(p.step(WriteEvent::StateReady(Ok(()))), WriteAction::AcquireSlot));
    assert_eq!(p.current_phase(), WritePhase::Acquiring);

    let mut hasher = wyhash::WyHash::default();
    hasher.write(data);
    let expected = InstanceVersion::new(1, data.len(), hasher.finish()).unwrap();
    let version = match p.step(WriteEvent::SlotAcquired(1, false)) {
        WriteAction::WriteData(v) => v,
        other => panic!("unexpected action {:?}", other),
    };
    assert_eq!(version, expected);
    assert_eq!(version.idx(), 1);
    assert_eq!(version.size(), data.len() as u64);
    assert_eq!(p.current_phase(), WritePhase::Writing(version));

    match p.step(WriteEvent::DataWritten(Ok(data.len()))) {
        WriteAction::Publish(v) => assert_eq!(v, version),
        other => panic!("unexpected action {:?}", other),
    }
    assert_eq!(p.current_phase(), WritePhase::Publishing(version, data.len()));

    match p.step(WriteEvent::Published) {
        WriteAction::Done(Ok((size, reset))) => {
            assert_eq!(size, data.len());
            assert!(!reset);
        }
        other => panic!("unexpected action {:?}", other),
    }
    assert_eq!(p.current_phase(), WritePhase::Finished);
}

#[test]
fn publication_reports_a_reset() {
    let (mut p, _) = Publication::start(b"x");
    p.step(WriteEvent::StateReady(Ok(())));
    let v = match p.step(WriteEvent::SlotAcquired(0, true)) {
        WriteAction::WriteData(v) => v,
        other => panic!("unexpected action {:?}", other),
    };
    assert_eq!(v.idx(), 0);
    p.step(WriteEvent::DataWritten(Ok(1)));
    assert!(matches!(p.step(WriteEvent::Published), WriteAction::Done(Ok((1, true)))));
}

#[test]
fn publication_stops_on_state_error() {
    let (mut p, _) = Publication::start(b"payload");
    let missing = std::io::Error::from_raw_os_error(2);
    match p.step(WriteEvent::StateReady(Err(SynchronizerError::FailedStateRead(missing)))) {
        WriteAction::Done(Err(SynchronizerError::FailedStateRead(_))) => {}
        other => panic!("unexpected action {:?}", other),
    }
    assert_eq!(p.current_phase(), WritePhase::Finished);
}

#[test]
fn publication_stops_on_lock_conflict() {
    let (mut p, _) = Publication::start(b"payload");
    let action = p.step(WriteEvent::StateReady(Err(SynchronizerError::WriteLockConflict)));
    assert!(matches!(action, WriteAction::Done(Err(SynchronizerError::WriteLockConflict))));
}

#[test]
fn publication_never_publishes_a_failed_write() {
    let (mut p, _) = Publication::start(b"payload");
    p.step(WriteEvent::StateReady(Ok(())));
    p.step(WriteEvent::SlotAcquired(0, false));
    let denied = std::io::Error::from_raw_os_error(13);
    match p.step(WriteEvent::DataWritten(Err(SynchronizerError::FailedDataWrite(denied)))) {
        WriteAction::Done(Err(SynchronizerError::FailedDataWrite(_))) => {}
        other => panic!("unexpected action {:?}", other),
    }
    assert_eq!(p.current_phase(), WritePhase::Finished);
}

#[test]
fn publication_rejects_an_invalid_slot() {
    let (mut p, _) = Publication::start(b"payload");
    p.step(WriteEvent::StateReady(Ok(())));
    let action = p.step(WriteEvent::SlotAcquired(2, false));
    assert!(matches!(
        action,
        WriteAction::Done(Err(SynchronizerError::InvalidInstanceVersionParams))
    ));
    assert_ne!(p.current_phase(), WritePhase::Writing(InstanceVersion(0)));
}

#[test]
fn publication_with_a_caller_checksum() {
    let (mut p, action) = Publication::start_with_checksum(b"abc", 0x1234_5678_9abc);
    assert!(matches!(action, WriteAction::PrepareState));
    p.step(WriteEvent::StateReady(Ok(())));
    match p.step(WriteEvent::SlotAcquired(0, false)) {
        WriteAction::WriteData(v) => {
            assert_eq!(v, InstanceVersion::new(0, 3, 0x1234_5678_9abc).unwrap());
            assert_eq!(v.checksum(), 0x78_9abc);
        }
        other => panic!("unexpected action {:?}", other),
    }
}
