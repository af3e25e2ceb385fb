//! Data files: the two payload slots, written by the writer through a writable mapping and read
//! by readers through cached read-only mappings.
//!
//! Opening, growing, mapping and flushing the files is done by the caller; this module decides
//! when that is needed, copies payloads into the bytes of a writable mapping, and hands out
//! exactly the published prefix of a read-only mapping.
//!
//! A file-backed mapping shows the file as it is now, so what a mapping holds changes whenever
//! the file is written, by this process or another. Only its length is fixed.
use vstd::prelude::*;

use crate::instance::{data_path, InstanceVersion};
use crate::synchronizer::SynchronizerError;

verus! {

/// A read-only memory map of a data file.
#[verifier::external_type_specification]
#[verifier::external_body]
pub struct ExMmap(memmap2::Mmap);

/// Number of bytes a read-only mapping covers: memmap2 fixes it when the mapping is made and
/// changes it only through `remap`, which this crate never calls. The bytes themselves follow
/// the file and are not fixed.
pub uninterp spec fn mapping_len(m: memmap2::Mmap) -> nat;

/// Relies on memmap2's `Deref` for `Mmap`: a slice over the whole mapping, as long as it.
#[verifier::external_body]
fn mapped_bytes(m: &memmap2::Mmap) -> (r: &[u8])
    ensures
        r@.len() == mapping_len(*m),
{
    &m[..]
}

/// Relies on std's `slice::copy_from_slice`: copies `src` over `dst` of the same length.
#[verifier::external_body]
fn copy_bytes(dst: &mut [u8], src: &[u8])
    requires
        old(dst)@.len() == src@.len(),
    ensures
        final(dst)@ == src@,
{
    dst.copy_from_slice(src)
}

/// Relies on std's `From<ErrorKind> for io::Error`: the error reported when a data file's
/// mapping is too short to take the payload.
#[verifier::external_body]
fn truncated_mapping_error() -> (r: std::io::Error) {
    std::io::Error::from(std::io::ErrorKind::UnexpectedEof)
}

/// What bytes that were `before` hold once `data` is written at their start.
pub open spec fn written_over(before: Seq<u8>, data: Seq<u8>) -> Seq<u8> {
    data + before.subrange(data.len() as int, before.len() as int)
}

/// Whether a read of `version` reports a switch after `last` was the version read before.
pub open spec fn switched_after(last: Option<InstanceVersion>, version: InstanceVersion) -> bool {
    last != Some(version)
}

/// Length to which a data file of `file_len` bytes must grow to hold `data_len` bytes, if any.
pub open spec fn grown_len(data_len: nat, file_len: nat) -> Option<nat> {
    if data_len > file_len {
        Some(data_len)
    } else {
        None
    }
}

/// Writing `data` over bytes that were `before`, as `DataContainer::write` does, leaves the
/// payload as their first `size` bytes when `size` is its length, as the version published for
/// it says, and keeps the bytes past it. This is a fact about the bytes written; that a reader's
/// mapping of the same file shows them is the operating system's doing, which no contract here
/// states.
pub proof fn lemma_read_returns_written(before: Seq<u8>, data: Seq<u8>, v: InstanceVersion)
    requires
        data.len() <= before.len(),
        v.spec_size() == data.len(),
    ensures
        written_over(before, data).len() == before.len(),
        written_over(before, data).subrange(0, v.spec_size() as int) == data,
        written_over(before, data).subrange(data.len() as int, before.len() as int)
            == before.subrange(data.len() as int, before.len() as int),
{
    assert(written_over(before, data).subrange(0, v.spec_size() as int) =~= data);
    assert(written_over(before, data).subrange(data.len() as int, before.len() as int)
        =~= before.subrange(data.len() as int, before.len() as int));
}

/// Data container: the path prefix of the data files, the version this reader read last, and
/// its read-only mappings of both slots.
pub struct DataContainer {
    /// Base data path
    path_prefix: String,
    /// Reader's current local instance version
    version: Option<InstanceVersion>,
    /// Read-only memory mapped files storing data
    idx_mmaps: [Option<memmap2::Mmap>; 2],
}

impl DataContainer {
    /// Path prefix of the data files.
    pub closed spec fn prefix(&self) -> Seq<char> {
        self.path_prefix@
    }

    /// Version returned by the last successful read, if any.
    pub closed spec fn last_version(&self) -> Option<InstanceVersion> {
        self.version
    }

    /// Read-only mapping currently held for slot `idx`.
    pub closed spec fn mapping(&self, idx: nat) -> Option<memmap2::Mmap> {
        self.idx_mmaps[idx as int]
    }

    /// Whether the mapping held for the slot of `version` covers its payload.
    pub open spec fn covers(&self, version: InstanceVersion) -> bool {
        &&& self.mapping(version.spec_idx()) is Some
        &&& mapping_len(self.mapping(version.spec_idx())->Some_0) >= version.spec_size()
    }

    /// Create new instance of `DataContainer`.
    pub fn new(path_prefix: &str) -> (r: DataContainer)
        ensures
            r.prefix() == path_prefix@,
            r.last_version() is None,
            r.mapping(0) is None,
            r.mapping(1) is None,
    {
        DataContainer {
            path_prefix: String::from_str(path_prefix),
            version: None,
            idx_mmaps: [None, None],
        }
    }

    /// Path of the data file that holds the payload of `version`.
    pub fn path(&self, version: InstanceVersion) -> (r: String)
        ensures
            r@ == data_path(self.prefix(), version.spec_idx()),
    {
        version.path(self.path_prefix.as_str())
    }

    /// Length to which a data file of `file_len` bytes must grow before `data_len` bytes are
    /// written to it; files are never shrunk.
    pub fn grow_to(data_len: usize, file_len: u64) -> (r: Option<u64>)
        ensures
            r matches Some(n) ==> grown_len(data_len as nat, file_len as nat) == Some(n as nat),
            r is None ==> grown_len(data_len as nat, file_len as nat) is None,
    {
        if data_len as u64 > file_len {
            Some(data_len as u64)
        } else {
            None
        }
    }

    /// Write `data` at the start of `mapped`, the bytes of a writable mapping of its data file,
    /// which the caller flushes afterwards.
    ///
    /// Returns the number of bytes written. The mapping must already cover the payload (the
    /// caller grows the file first, see `grow_to`); otherwise nothing is written.
    pub fn write(&mut self, data: &[u8], mapped: &mut [u8]) -> (r: Result<usize, SynchronizerError>)
        ensures
            data@.len() <= old(mapped)@.len() ==> r == Ok::<usize, SynchronizerError>(
                data@.len() as usize,
            ) && final(mapped)@ == written_over(old(mapped)@, data@),
            data@.len() > old(mapped)@.len() ==> r is Err && r->Err_0 is FailedDataWrite
                && final(mapped)@ == old(mapped)@,
            *final(self) == *old(self),
    {
        if mapped.len() < data.len() {
            return Err(SynchronizerError::FailedDataWrite(truncated_mapping_error()));
        }
        let ghost before = mapped@;
        let (head, _) = mapped.split_at_mut(data.len());
        copy_bytes(head, data);
        assert(mapped@ =~= written_over(before, data@));
        Ok(data.len())
    }

    /// Whether the data file of `version` must be (re)mapped before it can be read: no mapping
    /// is held for its slot yet, or the one held is shorter than its payload.
    pub fn needs_mapping(&self, version: InstanceVersion) -> (r: bool)
        ensures
            r == !self.covers(version),
    {
        let idx = version.idx();
        match &self.idx_mmaps[idx] {
            None => true,
            Some(m) => (mapped_bytes(m).len() as u64) < version.size(),
        }
    }

    /// Checks that a data file of `file_len` bytes holds the whole payload of `version`.
    pub fn check_file_len(version: InstanceVersion, file_len: u64) -> (r: Result<
        (),
        SynchronizerError,
    >)
        ensures
            r is Ok <==> file_len >= version.spec_size(),
            r is Err ==> r->Err_0 is FailedEntityRead,
    {
        if file_len < version.size() {
            Err(SynchronizerError::FailedEntityRead)
        } else {
            Ok(())
        }
    }

    /// Keep `mmap` as the read-only mapping of the slot of `version`, replacing any older one.
    pub fn install_mapping(&mut self, version: InstanceVersion, mmap: memmap2::Mmap)
        ensures
            final(self).mapping(version.spec_idx()) == Some(mmap),
            final(self).mapping((1 - version.spec_idx()) as nat) == old(self).mapping(
                (1 - version.spec_idx()) as nat,
            ),
            final(self).last_version() == old(self).last_version(),
            final(self).prefix() == old(self).prefix(),
    {
        let idx = version.idx();
        self.idx_mmaps[idx] = Some(mmap);
    }

    /// The payload of `version` within `mapped`, the bytes of its data file as a mapping shows
    /// them: their first `size` bytes, or `FailedEntityRead` when there are fewer.
    pub fn payload(mapped: &[u8], version: InstanceVersion) -> (r: Result<&[u8], SynchronizerError>)
        ensures
            r is Ok <==> mapped@.len() >= version.spec_size(),
            r is Ok ==> r->Ok_0@ == mapped@.subrange(0, version.spec_size() as int),
            r is Err ==> r->Err_0 is FailedEntityRead,
    {
        let size = version.size();
        if (mapped.len() as u64) < size {
            Err(SynchronizerError::FailedEntityRead)
        } else {
            Ok(&mapped[0..size as usize])
        }
    }

    /// Fetch the payload of `version` from the mapping of its slot (see `payload`), and whether
    /// `version` differs from the version read before.
    ///
    /// The bytes are those the file holds when they are read, so they are `version`'s payload
    /// only while the writer leaves that slot alone, which is what a registered reader ensures.
    pub fn data(&mut self, version: InstanceVersion) -> (r: Result<(&[u8], bool), SynchronizerError>)
        ensures
            r is Ok <==> old(self).covers(version),
            r is Ok ==> r->Ok_0.0@.len() == version.spec_size() && r->Ok_0.1 == switched_after(
                old(self).last_version(),
                version,
            ) && final(self).last_version() == Some(version),
            r is Err ==> r->Err_0 is FailedEntityRead && final(self).last_version() == old(
                self,
            ).last_version(),
            final(self).mapping(0) == old(self).mapping(0),
            final(self).mapping(1) == old(self).mapping(1),
            final(self).prefix() == old(self).prefix(),
    {
        let idx = version.idx();
        let mmaps = &self.idx_mmaps;
        match &mmaps[idx] {
            None => Err(SynchronizerError::FailedEntityRead),
            Some(m) => {
                match DataContainer::payload(mapped_bytes(m), version) {
                    Err(e) => Err(e),
                    Ok(data) => {
                        let switched = match self.version {
                            Some(last) => last != version,
                            None => true,
                        };
                        self.version = Some(version);
                        Ok((data, switched))
                    },
                }
            },
        }
    }
}

} // verus!
