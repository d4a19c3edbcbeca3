//! The DRM ioctl argument records the card serves, read from and written to
//! the kernel-side copy of the user argument.

use vstd::prelude::*;
use crate::abi;

verus! {

/// Size in bytes of the version query record.
pub const DRM_VERSION_SIZE: usize = 64;
/// Size in bytes of the bus-id record.
pub const DRM_UNIQUE_SIZE: usize = 16;
/// Size in bytes of the global-name export record.
pub const DRM_GEM_FLINK_SIZE: usize = 8;
/// Size in bytes of the file-descriptor export record.
pub const DRM_PRIME_HANDLE_SIZE: usize = 12;

proof fn lemma_i32_bits(v: i32)
    ensures
        ((v as u32) as i32) == v,
{
    assert(((v as u32) as i32) == v) by (bit_vector);
}

proof fn lemma_u32_bits(v: u32)
    ensures
        ((v as i32) as u32) == v,
{
    assert(((v as i32) as u32) == v) by (bit_vector);
}

/// Argument of the version query: the driver's version and three string
/// fields, each a user buffer address with its length in bytes.
#[derive(Debug, Clone, Copy, PartialEq, Eq, Structural)]
pub struct DrmVersion {
    pub version_major: i32,
    pub version_minor: i32,
    pub version_patchlevel: i32,
    pub name_len: u64,
    pub name: u64,
    pub date_len: u64,
    pub date: u64,
    pub desc_len: u64,
    pub desc: u64,
}

impl DrmVersion {
    /// The record stored at the start of `s`.
    pub open spec fn parse(s: Seq<u8>) -> DrmVersion {
        DrmVersion {
            version_major: abi::i32_at(s, 0),
            version_minor: abi::i32_at(s, 4),
            version_patchlevel: abi::i32_at(s, 8),
            name_len: abi::u64_at(s, 16),
            name: abi::u64_at(s, 24),
            date_len: abi::u64_at(s, 32),
            date: abi::u64_at(s, 40),
            desc_len: abi::u64_at(s, 48),
            desc: abi::u64_at(s, 56),
        }
    }

    /// `s` with this record stored at its start; padding is left alone.
    pub open spec fn emit(self, s: Seq<u8>) -> Seq<u8> {
        let s = abi::put_i32(s, 0, self.version_major);
        let s = abi::put_i32(s, 4, self.version_minor);
        let s = abi::put_i32(s, 8, self.version_patchlevel);
        let s = abi::put_u64(s, 16, self.name_len);
        let s = abi::put_u64(s, 24, self.name);
        let s = abi::put_u64(s, 32, self.date_len);
        let s = abi::put_u64(s, 40, self.date);
        let s = abi::put_u64(s, 48, self.desc_len);
        abi::put_u64(s, 56, self.desc)
    }

    /// Reads the record at the start of `data`.
    pub fn read(data: &[u8]) -> (r: DrmVersion)
        requires
            data@.len() >= DRM_VERSION_SIZE,
        ensures
            r == DrmVersion::parse(data@),
    {
        DrmVersion {
            version_major: abi::read_i32(data, 0),
            version_minor: abi::read_i32(data, 4),
            version_patchlevel: abi::read_i32(data, 8),
            name_len: abi::read_u64(data, 16),
            name: abi::read_u64(data, 24),
            date_len: abi::read_u64(data, 32),
            date: abi::read_u64(data, 40),
            desc_len: abi::read_u64(data, 48),
            desc: abi::read_u64(data, 56),
        }
    }

    /// Stores the record at the start of `data`.
    pub fn write(&self, data: &mut [u8])
        requires
            old(data)@.len() >= DRM_VERSION_SIZE,
        ensures
            final(data)@ == self.emit(old(data)@),
    {
        abi::write_i32(data, 0, self.version_major);
        abi::write_i32(data, 4, self.version_minor);
        abi::write_i32(data, 8, self.version_patchlevel);
        abi::write_u64(data, 16, self.name_len);
        abi::write_u64(data, 24, self.name);
        abi::write_u64(data, 32, self.date_len);
        abi::write_u64(data, 40, self.date);
        abi::write_u64(data, 48, self.desc_len);
        abi::write_u64(data, 56, self.desc);
    }
}

/// A version record stored into a buffer reads back as itself, and the
/// buffer keeps its length.
pub proof fn lemma_drm_version_round_trip(v: DrmVersion, s: Seq<u8>)
    requires
        s.len() >= DRM_VERSION_SIZE,
    ensures
        v.emit(s).len() == s.len(),
        DrmVersion::parse(v.emit(s)) == v,
{
    let s1 = abi::put_i32(s, 0, v.version_major);
    abi::lemma_put_u32(s, 0, v.version_major as u32);
    let s2 = abi::put_i32(s1, 4, v.version_minor);
    abi::lemma_put_u32(s1, 4, v.version_minor as u32);
    let s3 = abi::put_i32(s2, 8, v.version_patchlevel);
    abi::lemma_put_u32(s2, 8, v.version_patchlevel as u32);
    let s4 = abi::put_u64(s3, 16, v.name_len);
    abi::lemma_put_u64(s3, 16, v.name_len);
    let s5 = abi::put_u64(s4, 24, v.name);
    abi::lemma_put_u64(s4, 24, v.name);
    let s6 = abi::put_u64(s5, 32, v.date_len);
    abi::lemma_put_u64(s5, 32, v.date_len);
    let s7 = abi::put_u64(s6, 40, v.date);
    abi::lemma_put_u64(s6, 40, v.date);
    let s8 = abi::put_u64(s7, 48, v.desc_len);
    abi::lemma_put_u64(s7, 48, v.desc_len);
    let s9 = abi::put_u64(s8, 56, v.desc);
    abi::lemma_put_u64(s8, 56, v.desc);
    lemma_i32_bits(v.version_major);
    lemma_i32_bits(v.version_minor);
    lemma_i32_bits(v.version_patchlevel);
    assert(abi::u32_at(s9, 0) == abi::u32_at(s1, 0));
    assert(abi::u32_at(s9, 4) == abi::u32_at(s2, 4));
    assert(abi::u32_at(s9, 8) == abi::u32_at(s3, 8));
    assert(abi::u64_at(s9, 16) == abi::u64_at(s4, 16));
    assert(abi::u64_at(s9, 24) == abi::u64_at(s5, 24));
    assert(abi::u64_at(s9, 32) == abi::u64_at(s6, 32));
    assert(abi::u64_at(s9, 40) == abi::u64_at(s7, 40));
    assert(abi::u64_at(s9, 48) == abi::u64_at(s8, 48));
}

/// Storing the record a buffer already holds leaves the buffer unchanged.
pub proof fn lemma_drm_version_rewrite(s: Seq<u8>)
    requires
        s.len() >= DRM_VERSION_SIZE,
    ensures
        DrmVersion::parse(s).emit(s) == s,
{
    let v = DrmVersion::parse(s);
    lemma_u32_bits(abi::u32_at(s, 0));
    lemma_u32_bits(abi::u32_at(s, 4));
    lemma_u32_bits(abi::u32_at(s, 8));
    abi::lemma_put_u32_same(s, 0);
    abi::lemma_put_u32_same(s, 4);
    abi::lemma_put_u32_same(s, 8);
    abi::lemma_put_u64_same(s, 16);
    abi::lemma_put_u64_same(s, 24);
    abi::lemma_put_u64_same(s, 32);
    abi::lemma_put_u64_same(s, 40);
    abi::lemma_put_u64_same(s, 48);
    abi::lemma_put_u64_same(s, 56);
}

/// Argument of the bus-id queries: a user buffer address and its length.
#[derive(Debug, Clone, Copy, PartialEq, Eq, Structural)]
pub struct DrmUnique {
    pub unique_len: u64,
    pub unique: u64,
}

impl DrmUnique {
    /// The record stored at the start of `s`.
    pub open spec fn parse(s: Seq<u8>) -> DrmUnique {
        DrmUnique { unique_len: abi::u64_at(s, 0), unique: abi::u64_at(s, 8) }
    }

    /// `s` with this record stored at its start.
    pub open spec fn emit(self, s: Seq<u8>) -> Seq<u8> {
        abi::put_u64(abi::put_u64(s, 0, self.unique_len), 8, self.unique)
    }

    /// Reads the record at the start of `data`.
    pub fn read(data: &[u8]) -> (r: DrmUnique)
        requires
            data@.len() >= DRM_UNIQUE_SIZE,
        ensures
            r == DrmUnique::parse(data@),
    {
        DrmUnique { unique_len: abi::read_u64(data, 0), unique: abi::read_u64(data, 8) }
    }

    /// Stores the record at the start of `data`.
    pub fn write(&self, data: &mut [u8])
        requires
            old(data)@.len() >= DRM_UNIQUE_SIZE,
        ensures
            final(data)@ == self.emit(old(data)@),
    {
        abi::write_u64(data, 0, self.unique_len);
        abi::write_u64(data, 8, self.unique);
    }
}

/// A bus-id record stored into a buffer reads back as itself.
pub proof fn lemma_drm_unique_round_trip(v: DrmUnique, s: Seq<u8>)
    requires
        s.len() >= DRM_UNIQUE_SIZE,
    ensures
        v.emit(s).len() == s.len(),
        DrmUnique::parse(v.emit(s)) == v,
{
    let s1 = abi::put_u64(s, 0, v.unique_len);
    abi::lemma_put_u64(s, 0, v.unique_len);
    abi::lemma_put_u64(s1, 8, v.unique);
    assert(abi::u64_at(v.emit(s), 0) == abi::u64_at(s1, 0));
}

/// Storing the bus-id record a buffer already holds leaves it unchanged.
pub proof fn lemma_drm_unique_rewrite(s: Seq<u8>)
    requires
        s.len() >= DRM_UNIQUE_SIZE,
    ensures
        DrmUnique::parse(s).emit(s) == s,
{
    abi::lemma_put_u64_same(s, 0);
    abi::lemma_put_u64_same(s, 8);
}

/// Argument of the global-name export of a buffer object.
#[derive(Debug, Clone, Copy, PartialEq, Eq, Structural)]
pub struct DrmGemFlink {
    pub handle: u32,
    pub name: u32,
}

impl DrmGemFlink {
    /// The record stored at the start of `s`.
    pub open spec fn parse(s: Seq<u8>) -> DrmGemFlink {
        DrmGemFlink { handle: abi::u32_at(s, 0), name: abi::u32_at(s, 4) }
    }

    /// Reads the record at the start of `data`.
    pub fn read(data: &[u8]) -> (r: DrmGemFlink)
        requires
            data@.len() >= DRM_GEM_FLINK_SIZE,
        ensures
            r == DrmGemFlink::parse(data@),
    {
        DrmGemFlink { handle: abi::read_u32(data, 0), name: abi::read_u32(data, 4) }
    }
}

/// Argument of the export of a buffer object as a file descriptor.
#[derive(Debug, Clone, Copy, PartialEq, Eq, Structural)]
pub struct DrmPrimeHandle {
    pub handle: u32,
    pub flags: u32,
    pub fd: i32,
}

impl DrmPrimeHandle {
    /// The record stored at the start of `s`.
    pub open spec fn parse(s: Seq<u8>) -> DrmPrimeHandle {
        DrmPrimeHandle { handle: abi::u32_at(s, 0), flags: abi::u32_at(s, 4), fd: abi::i32_at(s, 8) }
    }

    /// `s` with this record stored at its start.
    pub open spec fn emit(self, s: Seq<u8>) -> Seq<u8> {
        abi::put_i32(abi::put_u32(abi::put_u32(s, 0, self.handle), 4, self.flags), 8, self.fd)
    }

    /// Reads the record at the start of `data`.
    pub fn read(data: &[u8]) -> (r: DrmPrimeHandle)
        requires
            data@.len() >= DRM_PRIME_HANDLE_SIZE,
        ensures
            r == DrmPrimeHandle::parse(data@),
    {
        DrmPrimeHandle { handle: abi::read_u32(data, 0), flags: abi::read_u32(data, 4), fd: abi::read_i32(data, 8) }
    }

    /// Stores the record at the start of `data`.
    pub fn write(&self, data: &mut [u8])
        requires
            old(data)@.len() >= DRM_PRIME_HANDLE_SIZE,
        ensures
            final(data)@ == self.emit(old(data)@),
    {
        abi::write_u32(data, 0, self.handle);
        abi::write_u32(data, 4, self.flags);
        abi::write_i32(data, 8, self.fd);
    }
}

/// A file-descriptor export record stored into a buffer reads back as
/// itself.
pub proof fn lemma_drm_prime_handle_round_trip(v: DrmPrimeHandle, s: Seq<u8>)
    requires
        s.len() >= DRM_PRIME_HANDLE_SIZE,
    ensures
        v.emit(s).len() == s.len(),
        DrmPrimeHandle::parse(v.emit(s)) == v,
{
    let s1 = abi::put_u32(s, 0, v.handle);
    abi::lemma_put_u32(s, 0, v.handle);
    let s2 = abi::put_u32(s1, 4, v.flags);
    abi::lemma_put_u32(s1, 4, v.flags);
    let s3 = abi::put_i32(s2, 8, v.fd);
    abi::lemma_put_u32(s2, 8, v.fd as u32);
    lemma_i32_bits(v.fd);
    assert(abi::u32_at(s3, 0) == abi::u32_at(s1, 0));
    assert(abi::u32_at(s3, 4) == abi::u32_at(s2, 4));
}

} // verus!
