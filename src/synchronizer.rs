//! Errors of the synchronizer, the payload checksum, and the writer's publication of a snapshot.
use vstd::prelude::*;

use crate::data::{mapping_len, switched_after, DataContainer};
use crate::instance::{
    idx_of, lemma_new_round_trip, pack_word, unpack_spec, valid_params, InstanceVersion,
    CHECKSUM_LIMIT,
};
use crate::state::next_idx_of;

verus! {

/// Opaque I/O error carried by the failures of file operations.
#[verifier::external_type_specification]
#[verifier::external_body]
pub struct ExIoError(std::io::Error);

/// Failures of reading or writing data or state files, and of the protocol itself.
#[derive(Debug)]
pub enum SynchronizerError {
    /// An error occurred while writing to the data file.
    FailedDataWrite(std::io::Error),
    /// An error occurred while reading from the data file.
    FailedDataRead(std::io::Error),
    /// An error occurred while reading from the state file.
    FailedStateRead(std::io::Error),
    /// An error occurred while writing an entity.
    FailedEntityWrite,
    /// An error occurred while reading an entity.
    FailedEntityRead,
    /// The state was not properly initialized.
    UninitializedState,
    /// The instance version parameters were invalid.
    InvalidInstanceVersionParams,
    /// Write locking is enabled and the lock is held by another writer.
    WriteLockConflict,
}

impl SynchronizerError {
    /// Human-readable description of the error.
    pub fn message(&self) -> (r: String)
        ensures
            self is FailedEntityWrite ==> r@ == "error writing entity"@,
            self is FailedEntityRead ==> r@ == "error reading entity"@,
            self is UninitializedState ==> r@ == "uninitialized state"@,
            self is InvalidInstanceVersionParams ==> r@ == "invalid instance version params"@,
            self is WriteLockConflict ==> r@ == "write blocked by conflicting lock"@,
            self is FailedDataWrite ==> "error writing data file: "@.is_prefix_of(r@),
            self is FailedDataRead ==> "error reading data file: "@.is_prefix_of(r@),
            self is FailedStateRead ==> "error reading state file: "@.is_prefix_of(r@),
    {
        match self {
            SynchronizerError::FailedDataWrite(e) => with_cause("error writing data file: ", e),
            SynchronizerError::FailedDataRead(e) => with_cause("error reading data file: ", e),
            SynchronizerError::FailedStateRead(e) => with_cause("error reading state file: ", e),
            SynchronizerError::FailedEntityWrite => String::from_str("error writing entity"),
            SynchronizerError::FailedEntityRead => String::from_str("error reading entity"),
            SynchronizerError::UninitializedState => String::from_str("uninitialized state"),
            SynchronizerError::InvalidInstanceVersionParams => String::from_str(
                "invalid instance version params",
            ),
            SynchronizerError::WriteLockConflict => String::from_str(
                "write blocked by conflicting lock",
            ),
        }
    }
}

/// `prefix` followed by the description of the I/O error `e`.
fn with_cause(prefix: &str, e: &std::io::Error) -> (r: String)
    ensures
        prefix@.is_prefix_of(r@),
{
    let cause = e.to_string();
    let r = String::from_str(prefix).concat(cause.as_str());
    assert(prefix@ =~= r@.subrange(0, prefix@.len() as int));
    r
}

/// The 64-bit checksum of a payload: wyhash's streaming hasher with its default seed, fed the
/// whole payload in one write.
pub uninterp spec fn wyhash_digest(data: Seq<u8>) -> u64;

/// Relies on wyhash's `WyHash` (default seed 0) through `Hasher::write` and `Hasher::finish`:
/// the digest depends on the bytes alone.
#[verifier::external_body]
fn wyhash_checksum(data: &[u8]) -> (r: u64)
    ensures
        r == wyhash_digest(data@),
{
    let mut hasher = wyhash::WyHash::default();
    std::hash::Hasher::write(&mut hasher, data);
    std::hash::Hasher::finish(&hasher)
}

/// Where a publication stands.
#[derive(Clone, Copy, Debug, PartialEq, Eq, Structural)]
pub enum WritePhase {
    /// Waiting for the state to be mapped and write access to be granted.
    Preparing,
    /// Waiting for a slot that no reader holds.
    Acquiring,
    /// Waiting for the payload to be written into the data file of this version.
    Writing(InstanceVersion),
    /// Waiting for this version, whose payload of the given size was written, to be published.
    Publishing(InstanceVersion, usize),
    /// Over.
    Finished,
}

/// What the caller must do next for a publication.
#[derive(Debug)]
pub enum WriteAction {
    /// Map the state file and obtain write access as the lock strategy says.
    PrepareState,
    /// Wait for the next slot to have no readers, or reset them once the grace period expired.
    AcquireSlot,
    /// Write the payload into the data file of this version.
    WriteData(InstanceVersion),
    /// Store this version into the shared state, so that new readers use it.
    Publish(InstanceVersion),
    /// The publication is over: bytes written and whether readers were reset, or the error.
    Done(Result<(usize, bool), SynchronizerError>),
}

/// What happened when the caller performed the last action.
#[derive(Debug)]
pub enum WriteEvent {
    /// Outcome of `PrepareState`.
    StateReady(Result<(), SynchronizerError>),
    /// Outcome of `AcquireSlot`: the slot obtained and whether its readers were reset.
    SlotAcquired(usize, bool),
    /// Outcome of `WriteData`: bytes written.
    DataWritten(Result<usize, SynchronizerError>),
    /// `Publish` was done.
    Published,
}

/// Whether `event` answers the action that a publication in `phase` asked for.
pub open spec fn answers(phase: WritePhase, event: WriteEvent) -> bool {
    match phase {
        WritePhase::Preparing => event is StateReady,
        WritePhase::Acquiring => event is SlotAcquired,
        WritePhase::Writing(_) => event is DataWritten,
        WritePhase::Publishing(_, _) => event is Published,
        WritePhase::Finished => false,
    }
}

/// Publication of one payload: map the state, acquire a slot, write the payload into that
/// slot's data file and only then publish its version. A failure at any step ends the
/// publication without publishing anything.
#[derive(Debug)]
pub struct Publication {
    size: usize,
    checksum: u64,
    reset: bool,
    phase: WritePhase,
}

impl Publication {
    /// Length of the payload.
    pub closed spec fn payload_len(&self) -> nat {
        self.size as nat
    }

    /// Checksum of the payload.
    pub closed spec fn payload_checksum(&self) -> u64 {
        self.checksum
    }

    /// Whether the slot was obtained by resetting its readers.
    pub closed spec fn was_reset(&self) -> bool {
        self.reset
    }

    /// Where the publication stands.
    pub closed spec fn phase(&self) -> WritePhase {
        self.phase
    }

    /// Starts publishing `data`, checksummed with wyhash; the first action is always to
    /// prepare the state.
    pub fn start(data: &[u8]) -> (r: (Publication, WriteAction))
        ensures
            r.0.payload_len() == data@.len(),
            r.0.payload_checksum() == wyhash_digest(data@),
            r.0.phase() == WritePhase::Preparing,
            r.1 is PrepareState,
    {
        let checksum = wyhash_checksum(data);
        Publication::start_with_checksum(data, checksum)
    }

    /// Starts publishing `data` whose checksum, from a hasher of the caller's choice, is
    /// `checksum`; the first action is always to prepare the state.
    pub fn start_with_checksum(data: &[u8], checksum: u64) -> (r: (Publication, WriteAction))
        ensures
            r.0.payload_len() == data@.len(),
            r.0.payload_checksum() == checksum,
            r.0.phase() == WritePhase::Preparing,
            r.1 is PrepareState,
    {
        let publication = Publication {
            size: data.len(),
            checksum,
            reset: false,
            phase: WritePhase::Preparing,
        };
        (publication, WriteAction::PrepareState)
    }

    /// Where the publication stands.
    pub fn current_phase(&self) -> (r: WritePhase)
        ensures
            r == self.phase(),
    {
        self.phase
    }

    /// Takes the outcome of the last action and says what to do next.
    pub fn step(&mut self, event: WriteEvent) -> (r: WriteAction)
        requires
            answers(old(self).phase(), event),
        ensures
            final(self).payload_len() == old(self).payload_len(),
            final(self).payload_checksum() == old(self).payload_checksum(),
            r is Done <==> final(self).phase() == WritePhase::Finished,
            old(self).phase() is Preparing ==> match event {
                WriteEvent::StateReady(Ok(())) => {
                    &&& r is AcquireSlot
                    &&& final(self).phase() == WritePhase::Acquiring
                },
                WriteEvent::StateReady(Err(e)) => r == WriteAction::Done(Err(e)),
                _ => false,
            },
            old(self).phase() is Acquiring ==> match event {
                WriteEvent::SlotAcquired(idx, reset) => if valid_params(
                    idx as nat,
                    old(self).payload_len(),
                ) {
                    &&& r matches WriteAction::WriteData(v)
                    &&& v.word() == pack_word(
                        idx as nat,
                        old(self).payload_len(),
                        old(self).payload_checksum(),
                    )
                    &&& final(self).phase() == WritePhase::Writing(v)
                    &&& final(self).was_reset() == reset
                } else {
                    r matches WriteAction::Done(Err(e)) && e is InvalidInstanceVersionParams
                },
                _ => false,
            },
            old(self).phase() matches WritePhase::Writing(v) ==> match event {
                WriteEvent::DataWritten(Ok(n)) => {
                    &&& r == WriteAction::Publish(v)
                    &&& final(self).phase() == WritePhase::Publishing(v, n)
                    &&& final(self).was_reset() == old(self).was_reset()
                },
                WriteEvent::DataWritten(Err(e)) => r == WriteAction::Done(Err(e)),
                _ => false,
            },
            old(self).phase() matches WritePhase::Publishing(v, n) ==> r == WriteAction::Done(
                Ok((n, old(self).was_reset())),
            ),
    {
        match event {
            WriteEvent::StateReady(Ok(())) => {
                self.phase = WritePhase::Acquiring;
                WriteAction::AcquireSlot
            },
            WriteEvent::SlotAcquired(idx, reset) => {
                match InstanceVersion::new(idx, self.size, self.checksum) {
                    Ok(v) => {
                        self.reset = reset;
                        self.phase = WritePhase::Writing(v);
                        WriteAction::WriteData(v)
                    },
                    Err(e) => {
                        self.phase = WritePhase::Finished;
                        WriteAction::Done(Err(e))
                    },
                }
            },
            // `answers` ties each event to its phase, so the other arms below never run
            WriteEvent::DataWritten(Ok(n)) => {
                let v = match self.phase {
                    WritePhase::Writing(v) => v,
                    _ => InstanceVersion(0),
                };
                self.phase = WritePhase::Publishing(v, n);
                WriteAction::Publish(v)
            },
            WriteEvent::Published => {
                let n = match self.phase {
                    WritePhase::Publishing(_, n) => n,
                    _ => 0,
                };
                self.phase = WritePhase::Finished;
                WriteAction::Done(Ok((n, self.reset)))
            },
            WriteEvent::StateReady(Err(e)) | WriteEvent::DataWritten(Err(e)) => {
                self.phase = WritePhase::Finished;
                WriteAction::Done(Err(e))
            },
        }
    }
}

/// Where a read stands.
#[derive(Clone, Copy, Debug, PartialEq, Eq, Structural)]
pub enum ReadPhase {
    /// Waiting for the state to be mapped.
    Preparing,
    /// Waiting for the current version word.
    Loading,
    /// Waiting for the reader to be registered on this version's slot.
    Registering(InstanceVersion),
    /// Waiting for this version's data file to be opened and its length read.
    Opening(InstanceVersion),
    /// Waiting for the opened data file to be mapped.
    Mapping(InstanceVersion),
    /// Over.
    Finished,
}

/// What the caller must do next for a read.
#[derive(Debug)]
pub enum ReadAction {
    /// Map the state file, without taking the write lock.
    PrepareState,
    /// Load the current version word.
    LoadVersion,
    /// Register one more reader on this version's slot; the registration is released when the
    /// read ends, whichever way.
    Register(InstanceVersion),
    /// Open this version's data file and read its length.
    OpenData(InstanceVersion),
    /// Map the data file opened last, read-only.
    MapData(InstanceVersion),
    /// The slot's mapping covers this version: fetch its payload with `DataContainer::data`.
    Fetch(InstanceVersion),
    /// The read failed with this error.
    Fail(SynchronizerError),
}

/// What happened when the caller performed the last action.
#[derive(Debug)]
pub enum ReadEvent {
    /// Outcome of `PrepareState`.
    StateReady(Result<(), SynchronizerError>),
    /// Outcome of `LoadVersion`.
    VersionLoaded(u64),
    /// `Register` was done.
    Registered,
    /// Outcome of `OpenData`: the file's length.
    DataOpened(Result<u64, SynchronizerError>),
    /// Outcome of `MapData`.
    DataMapped(Result<memmap2::Mmap, SynchronizerError>),
}

/// Whether `event` answers the action that a read in `phase` asked for.
pub open spec fn read_answers(phase: ReadPhase, event: ReadEvent) -> bool {
    match phase {
        ReadPhase::Preparing => event is StateReady,
        ReadPhase::Loading => event is VersionLoaded,
        ReadPhase::Registering(_) => event is Registered,
        ReadPhase::Opening(_) => event is DataOpened,
        ReadPhase::Mapping(_) => event is DataMapped,
        ReadPhase::Finished => false,
    }
}

/// One read of the current snapshot: map the state, load the version, register on its slot,
/// (re)map the slot's data file when the cached mapping does not cover the payload, and fetch.
#[derive(Debug)]
pub struct Consumption {
    phase: ReadPhase,
}

impl Consumption {
    /// Where the read stands.
    pub closed spec fn phase(&self) -> ReadPhase {
        self.phase
    }

    /// Starts a read; the first action is always to prepare the state.
    pub fn start() -> (r: (Consumption, ReadAction))
        ensures
            r.0.phase() == ReadPhase::Preparing,
            r.1 is PrepareState,
    {
        (Consumption { phase: ReadPhase::Preparing }, ReadAction::PrepareState)
    }

    /// Where the read stands.
    pub fn current_phase(&self) -> (r: ReadPhase)
        ensures
            r == self.phase(),
    {
        self.phase
    }

    /// Takes the outcome of the last action and says what to do next; the read's data
    /// container `data` keeps the mapping made for it.
    pub fn step(&mut self, data: &mut DataContainer, event: ReadEvent) -> (r: ReadAction)
        requires
            read_answers(old(self).phase(), event),
        ensures
            r is Fetch || r is Fail <==> final(self).phase() == ReadPhase::Finished,
            final(data).prefix() == old(data).prefix(),
            final(data).last_version() == old(data).last_version(),
            !(event is DataMapped) ==> final(data).mapping(0) == old(data).mapping(0)
                && final(data).mapping(1) == old(data).mapping(1),
            old(self).phase() is Preparing ==> match event {
                ReadEvent::StateReady(Ok(())) => {
                    &&& r is LoadVersion
                    &&& final(self).phase() == ReadPhase::Loading
                },
                ReadEvent::StateReady(Err(e)) => r == ReadAction::Fail(e),
                _ => false,
            },
            old(self).phase() is Loading ==> match event {
                ReadEvent::VersionLoaded(word) => if word == 0 {
                    r matches ReadAction::Fail(e) && e is UninitializedState
                } else {
                    &&& r == ReadAction::Register(InstanceVersion(word))
                    &&& final(self).phase() == ReadPhase::Registering(InstanceVersion(word))
                },
                _ => false,
            },
            old(self).phase() matches ReadPhase::Registering(v) ==> if old(data).covers(v) {
                r == ReadAction::Fetch(v)
            } else {
                r == ReadAction::OpenData(v) && final(self).phase() == ReadPhase::Opening(v)
            },
            old(self).phase() matches ReadPhase::Opening(v) ==> match event {
                ReadEvent::DataOpened(Ok(len)) => if len >= v.spec_size() {
                    r == ReadAction::MapData(v) && final(self).phase() == ReadPhase::Mapping(v)
                } else {
                    r matches ReadAction::Fail(e) && e is FailedEntityRead
                },
                ReadEvent::DataOpened(Err(e)) => r == ReadAction::Fail(e),
                _ => false,
            },
            old(self).phase() matches ReadPhase::Mapping(v) ==> match event {
                ReadEvent::DataMapped(Ok(m)) => {
                    &&& final(data).mapping(v.spec_idx()) == Some(m)
                    &&& final(data).mapping((1 - v.spec_idx()) as nat) == old(data).mapping(
                        (1 - v.spec_idx()) as nat,
                    )
                    &&& if mapping_len(m) >= v.spec_size() {
                        r == ReadAction::Fetch(v)
                    } else {
                        r matches ReadAction::Fail(e) && e is FailedEntityRead
                    }
                },
                ReadEvent::DataMapped(Err(e)) => r == ReadAction::Fail(e) && final(data).mapping(0)
                    == old(data).mapping(0) && final(data).mapping(1) == old(data).mapping(1),
                _ => false,
            },
    {
        let phase = self.phase;
        self.phase = ReadPhase::Finished;
        match event {
            ReadEvent::StateReady(Ok(())) => {
                self.phase = ReadPhase::Loading;
                ReadAction::LoadVersion
            },
            ReadEvent::VersionLoaded(word) => match InstanceVersion::try_from(word) {
                Ok(v) => {
                    self.phase = ReadPhase::Registering(v);
                    ReadAction::Register(v)
                },
                Err(e) => ReadAction::Fail(e),
            },
            // `read_answers` ties each event to its phase, so the version is always the one
            // the phase carries
            ReadEvent::Registered => {
                let v = phase_version(phase);
                if data.needs_mapping(v) {
                    self.phase = ReadPhase::Opening(v);
                    ReadAction::OpenData(v)
                } else {
                    ReadAction::Fetch(v)
                }
            },
            ReadEvent::DataOpened(Ok(len)) => {
                let v = phase_version(phase);
                match DataContainer::check_file_len(v, len) {
                    Ok(()) => {
                        self.phase = ReadPhase::Mapping(v);
                        ReadAction::MapData(v)
                    },
                    Err(e) => ReadAction::Fail(e),
                }
            },
            ReadEvent::DataMapped(Ok(m)) => {
                let v = phase_version(phase);
                data.install_mapping(v, m);
                if data.needs_mapping(v) {
                    ReadAction::Fail(SynchronizerError::FailedEntityRead)
                } else {
                    ReadAction::Fetch(v)
                }
            },
            ReadEvent::StateReady(Err(e)) | ReadEvent::DataOpened(Err(e)) | ReadEvent::DataMapped(
                Err(e),
            ) => ReadAction::Fail(e),
        }
    }
}

/// Version a read phase carries (the zero word for phases that carry none).
fn phase_version(phase: ReadPhase) -> (r: InstanceVersion)
    ensures
        phase matches ReadPhase::Registering(v) ==> r == v,
        phase matches ReadPhase::Opening(v) ==> r == v,
        phase matches ReadPhase::Mapping(v) ==> r == v,
{
    match phase {
        ReadPhase::Registering(v) | ReadPhase::Opening(v) | ReadPhase::Mapping(v) => v,
        _ => InstanceVersion(0),
    }
}

/// A write publishes a non-zero version that reads back as itself, in slot 0 on the first
/// write and otherwise in the slot the previous version does not use. The one payload left
/// out is the empty one written into slot 0 whose checksum has its low 24 bits all zero: it
/// packs to the zero word, which reads as uninitialized.
pub proof fn lemma_write_publishes_other_slot(prev_word: u64, data: Seq<u8>, v: InstanceVersion)
    requires
        valid_params(next_idx_of(prev_word), data.len()),
        v.word() == pack_word(next_idx_of(prev_word), data.len(), wyhash_digest(data)),
        !(next_idx_of(prev_word) == 0 && data.len() == 0 && wyhash_digest(data) % CHECKSUM_LIMIT
            == 0),
    ensures
        v.word() != 0,
        unpack_spec(v.word()) == Ok::<InstanceVersion, SynchronizerError>(v),
        prev_word == 0 ==> v.spec_idx() == 0,
        prev_word != 0 ==> v.spec_idx() != idx_of(prev_word),
{
    lemma_new_round_trip(next_idx_of(prev_word), data.len(), wyhash_digest(data), v);
}

/// A read of the version that a write published yields as many bytes as the write reported:
/// the size packed into the version is the payload's length.
pub proof fn lemma_read_len_matches_write(idx: nat, data: Seq<u8>, v: InstanceVersion)
    requires
        valid_params(idx, data.len()),
        v.word() == pack_word(idx, data.len(), wyhash_digest(data)),
    ensures
        v.spec_size() == data.len(),
{
    lemma_new_round_trip(idx, data.len(), wyhash_digest(data), v);
}

/// Reading the same version again reports no switch, while the first read after a write into
/// the other slot reports one.
pub proof fn lemma_switch_detection(read: InstanceVersion, published: InstanceVersion)
    requires
        read.word() != 0,
        published.spec_idx() == next_idx_of(read.word()),
    ensures
        !switched_after(Some(read), read),
        switched_after(Some(read), published),
{
}

} // verus!
