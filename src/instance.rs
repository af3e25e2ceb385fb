//! The version word: a data slot, a payload size and a checksum packed into 64 bits.
//!
//! - bit 0: slot (0 or 1)
//! - bits 1..=39: payload size in bytes
//! - bits 40..=63: low 24 bits of the payload checksum
use vstd::prelude::*;

use crate::synchronizer::SynchronizerError;

verus! {

/// Number of bits that hold the payload size.
pub const DATA_SIZE_BITS: u64 = 39;

/// Number of bits that hold the checksum.
pub const DATA_CHECKSUM_BITS: u64 = 24;

/// Sizes must stay below this bound (2^39).
pub const SIZE_LIMIT: u64 = 0x80_0000_0000;

/// Only the checksum modulo this bound (2^24) is kept.
pub const CHECKSUM_LIMIT: u64 = 0x100_0000;

/// Mask of the size field once shifted down (2^39 - 1).
pub const SIZE_MASK: u64 = 0x7f_ffff_ffff;

/// Mask of the kept checksum bits (2^24 - 1).
pub const CHECKSUM_MASK: u64 = 0xff_ffff;

/// Weight of the lowest checksum bit in the word (2^40).
pub const CHECKSUM_SHIFT: u64 = 0x100_0000_0000;

/// The word that packs `idx`, `size` and the low bits of `checksum`.
pub open spec fn pack_word(idx: nat, size: nat, checksum: u64) -> nat {
    (idx + 2 * size + (checksum % CHECKSUM_LIMIT) * CHECKSUM_SHIFT) as nat
}

/// Whether `pack_word` accepts the slot and size.
pub open spec fn valid_params(idx: nat, size: nat) -> bool {
    idx <= 1 && size < SIZE_LIMIT
}

/// Slot stored in a word.
pub open spec fn idx_of(word: u64) -> nat {
    (word % 2) as nat
}

/// Payload size stored in a word.
pub open spec fn size_of(word: u64) -> nat {
    ((word / 2) % SIZE_LIMIT) as nat
}

/// Checksum bits stored in a word.
pub open spec fn checksum_of(word: u64) -> nat {
    (word / CHECKSUM_SHIFT) as nat
}

/// `InstanceVersion` identifies one published snapshot: the data slot it lives in, its size
/// and the low bits of its checksum.
#[derive(Clone, Copy, Debug, PartialEq, Eq, Structural)]
pub struct InstanceVersion(pub u64);

impl InstanceVersion {
    /// The packed 64-bit word.
    pub open spec fn word(self) -> u64 {
        self.0
    }

    /// Slot of this version.
    pub open spec fn spec_idx(self) -> nat {
        idx_of(self.word())
    }

    /// Payload size of this version.
    pub open spec fn spec_size(self) -> nat {
        size_of(self.word())
    }

    /// Checksum bits of this version.
    pub open spec fn spec_checksum(self) -> nat {
        checksum_of(self.word())
    }

    /// Create new `InstanceVersion` from data instance `idx`, `size` and `checksum`.
    pub fn new(idx: usize, size: usize, checksum: u64) -> (r: Result<InstanceVersion, SynchronizerError>)
        ensures
            valid_params(idx as nat, size as nat) <==> r is Ok,
            r is Ok ==> r->Ok_0.word() == pack_word(idx as nat, size as nat, checksum),
            r is Err ==> r->Err_0 is InvalidInstanceVersionParams,
    {
        if idx > 1 || size as u64 >= SIZE_LIMIT {
            return Err(SynchronizerError::InvalidInstanceVersionParams);
        }
        let i = idx as u64;
        let s = size as u64;
        let mut res: u64 = 0;
        res = res | (i & 1);
        res = res | ((s & SIZE_MASK) << 1u64);
        res = res | ((checksum & CHECKSUM_MASK) << 40u64);
        proof {
            lemma_pack_bits(i, s, checksum);
        }
        Ok(InstanceVersion(res))
    }

    /// Data slot of this version (0 or 1).
    pub fn idx(&self) -> (r: usize)
        ensures
            r == self.spec_idx(),
            r <= 1,
    {
        let w = self.0;
        proof {
            lemma_idx_bits(w);
        }
        (w & 1) as usize
    }

    /// Payload size of this version, in bytes.
    pub fn size(&self) -> (r: u64)
        ensures
            r == self.spec_size(),
            r < SIZE_LIMIT,
    {
        let w = self.0;
        proof {
            lemma_size_bits(w);
        }
        (w >> 1u64) & SIZE_MASK
    }

    /// Checksum bits of this version.
    pub fn checksum(&self) -> (r: u64)
        ensures
            r == self.spec_checksum(),
            r < CHECKSUM_LIMIT,
    {
        let w = self.0;
        proof {
            lemma_checksum_bits(w);
        }
        w >> 40u64
    }

    /// Path of the data file that holds this version's payload.
    pub fn path(&self, path_prefix: &str) -> (r: String)
        ensures
            r@ == data_path(path_prefix@, self.spec_idx()),
    {
        let mut path = String::from_str(path_prefix);
        path.append("_data_");
        if self.idx() == 0 {
            path.append("0");
        } else {
            path.append("1");
        }
        path
    }
}

/// Packing keeps every field: the slot, the size and the low 24 bits of the checksum read
/// back from the packed word, which fits in 64 bits.
pub proof fn lemma_pack_round_trip(idx: nat, size: nat, checksum: u64)
    requires
        valid_params(idx, size),
    ensures
        pack_word(idx, size, checksum) <= u64::MAX,
        idx_of(pack_word(idx, size, checksum) as u64) == idx,
        size_of(pack_word(idx, size, checksum) as u64) == size,
        checksum_of(pack_word(idx, size, checksum) as u64) == checksum % CHECKSUM_LIMIT,
{
    let i = idx as u64;
    let s = size as u64;
    let c = checksum;
    assert(i + 2 * s + (c % 0x100_0000) * 0x100_0000_0000 <= 0xffff_ffff_ffff_ffffu64) by (bit_vector)
        requires
            i <= 1,
            s < 0x80_0000_0000u64,
    ;
    let w: u64 = (i + 2 * s + (c % 0x100_0000) * 0x100_0000_0000) as u64;
    assert(w % 2 == i && (w / 2) % 0x80_0000_0000 == s && w / 0x100_0000_0000 == c % 0x100_0000)
        by (bit_vector)
        requires
            i <= 1,
            s < 0x80_0000_0000u64,
            w == (i + 2 * s + (c % 0x100_0000) * 0x100_0000_0000) as u64,
            i + 2 * s + (c % 0x100_0000) * 0x100_0000_0000 <= 0xffff_ffff_ffff_ffffu64,
    ;
}

/// A successfully packed version reads back the slot, size and checksum bits it was made
/// from, and reading its word back yields the same version unless the word is zero.
pub proof fn lemma_new_round_trip(idx: nat, size: nat, checksum: u64, v: InstanceVersion)
    requires
        valid_params(idx, size),
        v.word() == pack_word(idx, size, checksum),
    ensures
        v.spec_idx() == idx,
        v.spec_size() == size,
        v.spec_checksum() == checksum % CHECKSUM_LIMIT,
        v.word() != 0 ==> unpack_spec(v.word()) == Ok::<InstanceVersion, SynchronizerError>(v),
{
    lemma_pack_round_trip(idx, size, checksum);
}

/// The zero word reads as uninitialized; every other word reads as the version that packs
/// its own slot, size and checksum fields, so nothing is lost in either direction.
pub proof fn lemma_unpack_lossless(word: u64)
    ensures
        word == 0 ==> unpack_spec(word) is Err && unpack_spec(word)->Err_0 is UninitializedState,
        word != 0 ==> unpack_spec(word) is Ok && unpack_spec(word)->Ok_0.word() == word,
        valid_params(idx_of(word), size_of(word)),
        word == pack_word(idx_of(word), size_of(word), checksum_of(word) as u64),
{
    assert(word / 0x100_0000_0000 < 0x100_0000) by (bit_vector);
    assert(word == (word % 2) + 2 * ((word / 2) % 0x80_0000_0000) + ((word / 0x100_0000_0000)
        % 0x100_0000) * 0x100_0000_0000) by (bit_vector);
}

/// Path of the data file of slot `idx` under `prefix`: `<prefix>_data_<idx>`.
pub open spec fn data_path(prefix: Seq<char>, idx: nat) -> Seq<char> {
    prefix + "_data_"@ + if idx == 0 {
        "0"@
    } else {
        "1"@
    }
}

/// Result of reading a version word: none is published while the word is zero.
pub open spec fn unpack_spec(word: u64) -> Result<InstanceVersion, SynchronizerError> {
    if word == 0 {
        Err(SynchronizerError::UninitializedState)
    } else {
        Ok(InstanceVersion(word))
    }
}

impl TryFrom<u64> for InstanceVersion {
    type Error = SynchronizerError;

    /// Convert from `u64` to `InstanceVersion`; the zero word means nothing was published.
    fn try_from(v: u64) -> (r: Result<InstanceVersion, SynchronizerError>) {
        if v == 0 {
            Err(SynchronizerError::UninitializedState)
        } else {
            Ok(InstanceVersion(v))
        }
    }
}

impl vstd::std_specs::convert::TryFromSpecImpl<u64> for InstanceVersion {
    open spec fn obeys_try_from_spec() -> bool {
        true
    }

    open spec fn try_from_spec(v: u64) -> Result<InstanceVersion, SynchronizerError> {
        unpack_spec(v)
    }
}

impl From<InstanceVersion> for u64 {
    /// Convert from `InstanceVersion` to `u64`
    fn from(v: InstanceVersion) -> (r: u64) {
        v.0
    }
}

impl vstd::std_specs::convert::FromSpecImpl<InstanceVersion> for u64 {
    open spec fn obeys_from_spec() -> bool {
        true
    }

    open spec fn from_spec(v: InstanceVersion) -> u64 {
        v.0
    }
}

proof fn lemma_pack_bits(i: u64, s: u64, c: u64)
    requires
        i <= 1,
        s < SIZE_LIMIT,
    ensures
        (0u64 | (i & 1)) | ((s & SIZE_MASK) << 1u64) | ((c & CHECKSUM_MASK) << 40u64)
            == i + 2 * s + (c % CHECKSUM_LIMIT) * CHECKSUM_SHIFT,
{
    assert((0u64 | (i & 1)) | ((s & 0x7f_ffff_ffff) << 1u64) | ((c & 0xff_ffff) << 40u64)
        == i + 2 * s + (c % 0x100_0000) * 0x100_0000_0000) by (bit_vector)
        requires
            i <= 1,
            s < 0x80_0000_0000u64,
    ;
}

proof fn lemma_idx_bits(w: u64)
    ensures
        w & 1 == w % 2,
{
    assert(w & 1 == w % 2) by (bit_vector);
}

proof fn lemma_size_bits(w: u64)
    ensures
        (w >> 1u64) & SIZE_MASK == (w / 2) % SIZE_LIMIT,
        (w / 2) % SIZE_LIMIT < SIZE_LIMIT,
{
    assert((w >> 1u64) & 0x7f_ffff_ffff == (w / 2) % 0x80_0000_0000) by (bit_vector);
}

proof fn lemma_checksum_bits(w: u64)
    ensures
        w >> 40u64 == w / CHECKSUM_SHIFT,
        w / CHECKSUM_SHIFT < CHECKSUM_LIMIT,
{
    assert(w >> 40u64 == w / 0x100_0000_0000) by (bit_vector);
    assert(w / 0x100_0000_0000 < 0x100_0000) by (bit_vector);
}

} // verus!
