//! Little-endian layout of the ioctl argument records the card reads and
//! writes in its kernel-side copy of the user argument.
//!
//! The records follow the C layout of the DRM uapi on a 64-bit target: 32-bit
//! integers on 4-byte boundaries, sizes and user pointers as 64-bit words on
//! 8-byte boundaries.

use vstd::prelude::*;
use vstd::bytes::*;

verus! {

/// `s` with the bytes `b` written from offset `off` on.
pub open spec fn splice(s: Seq<u8>, off: int, b: Seq<u8>) -> Seq<u8> {
    Seq::new(s.len(), |i: int| if off <= i < off + b.len() { b[i - off] } else { s[i] })
}

/// The 32-bit word stored at `off`.
pub open spec fn u32_at(s: Seq<u8>, off: int) -> u32 {
    spec_u32_from_le_bytes(s.subrange(off, off + 4))
}

/// The 64-bit word stored at `off`.
pub open spec fn u64_at(s: Seq<u8>, off: int) -> u64 {
    spec_u64_from_le_bytes(s.subrange(off, off + 8))
}

/// The signed 32-bit word stored at `off`.
pub open spec fn i32_at(s: Seq<u8>, off: int) -> i32 {
    u32_at(s, off) as i32
}

/// `s` with the 32-bit word `v` stored at `off`.
pub open spec fn put_u32(s: Seq<u8>, off: int, v: u32) -> Seq<u8> {
    splice(s, off, spec_u32_to_le_bytes(v))
}

/// `s` with the 64-bit word `v` stored at `off`.
pub open spec fn put_u64(s: Seq<u8>, off: int, v: u64) -> Seq<u8> {
    splice(s, off, spec_u64_to_le_bytes(v))
}

/// `s` with the signed 32-bit word `v` stored at `off`.
pub open spec fn put_i32(s: Seq<u8>, off: int, v: i32) -> Seq<u8> {
    put_u32(s, off, v as u32)
}

proof fn lemma_u32_bytes_len(v: u32)
    ensures
        spec_u32_to_le_bytes(v).len() == 4,
        spec_u32_from_le_bytes(spec_u32_to_le_bytes(v)) == v,
{
    lemma_auto_spec_u32_to_from_le_bytes();
    assert(spec_u32_to_le_bytes(v).len() == 4);
}

proof fn lemma_u64_bytes_len(v: u64)
    ensures
        spec_u64_to_le_bytes(v).len() == 8,
        spec_u64_from_le_bytes(spec_u64_to_le_bytes(v)) == v,
{
    lemma_auto_spec_u64_to_from_le_bytes();
    assert(spec_u64_to_le_bytes(v).len() == 8);
}

/// A 32-bit word reads back as written; words that do not overlap it are
/// untouched.
pub proof fn lemma_put_u32(s: Seq<u8>, off: int, v: u32)
    requires
        0 <= off,
        off + 4 <= s.len(),
    ensures
        put_u32(s, off, v).len() == s.len(),
        u32_at(put_u32(s, off, v), off) == v,
        forall|o: int| #![trigger u32_at(put_u32(s, off, v), o)]
            0 <= o && o + 4 <= s.len() && (o + 4 <= off || off + 4 <= o)
                ==> u32_at(put_u32(s, off, v), o) == u32_at(s, o),
        forall|o: int| #![trigger u64_at(put_u32(s, off, v), o)]
            0 <= o && o + 8 <= s.len() && (o + 8 <= off || off + 4 <= o)
                ==> u64_at(put_u32(s, off, v), o) == u64_at(s, o),
{
    lemma_u32_bytes_len(v);
    let t = put_u32(s, off, v);
    assert(t.subrange(off, off + 4) =~= spec_u32_to_le_bytes(v));
    assert forall|o: int| 0 <= o && o + 4 <= s.len() && (o + 4 <= off || off + 4 <= o)
        implies #[trigger] u32_at(t, o) == u32_at(s, o) by {
        assert(t.subrange(o, o + 4) =~= s.subrange(o, o + 4));
    }
    assert forall|o: int| 0 <= o && o + 8 <= s.len() && (o + 8 <= off || off + 4 <= o)
        implies #[trigger] u64_at(t, o) == u64_at(s, o) by {
        assert(t.subrange(o, o + 8) =~= s.subrange(o, o + 8));
    }
}

/// A 64-bit word reads back as written; words that do not overlap it are
/// untouched.
pub proof fn lemma_put_u64(s: Seq<u8>, off: int, v: u64)
    requires
        0 <= off,
        off + 8 <= s.len(),
    ensures
        put_u64(s, off, v).len() == s.len(),
        u64_at(put_u64(s, off, v), off) == v,
        forall|o: int| #![trigger u32_at(put_u64(s, off, v), o)]
            0 <= o && o + 4 <= s.len() && (o + 4 <= off || off + 8 <= o)
                ==> u32_at(put_u64(s, off, v), o) == u32_at(s, o),
        forall|o: int| #![trigger u64_at(put_u64(s, off, v), o)]
            0 <= o && o + 8 <= s.len() && (o + 8 <= off || off + 8 <= o)
                ==> u64_at(put_u64(s, off, v), o) == u64_at(s, o),
{
    lemma_u64_bytes_len(v);
    let t = put_u64(s, off, v);
    assert(t.subrange(off, off + 8) =~= spec_u64_to_le_bytes(v));
    assert forall|o: int| 0 <= o && o + 4 <= s.len() && (o + 4 <= off || off + 8 <= o)
        implies #[trigger] u32_at(t, o) == u32_at(s, o) by {
        assert(t.subrange(o, o + 4) =~= s.subrange(o, o + 4));
    }
    assert forall|o: int| 0 <= o && o + 8 <= s.len() && (o + 8 <= off || off + 8 <= o)
        implies #[trigger] u64_at(t, o) == u64_at(s, o) by {
        assert(t.subrange(o, o + 8) =~= s.subrange(o, o + 8));
    }
}

/// Storing the word already present leaves the bytes as they were.
pub proof fn lemma_put_u32_same(s: Seq<u8>, off: int)
    requires
        0 <= off,
        off + 4 <= s.len(),
    ensures
        put_u32(s, off, u32_at(s, off)) == s,
{
    lemma_auto_spec_u32_to_from_le_bytes();
    let b = s.subrange(off, off + 4);
    assert(spec_u32_to_le_bytes(spec_u32_from_le_bytes(b)) == b);
    assert(put_u32(s, off, u32_at(s, off)) =~= s);
}

/// Storing the word already present leaves the bytes as they were.
pub proof fn lemma_put_u64_same(s: Seq<u8>, off: int)
    requires
        0 <= off,
        off + 8 <= s.len(),
    ensures
        put_u64(s, off, u64_at(s, off)) == s,
{
    lemma_auto_spec_u64_to_from_le_bytes();
    let b = s.subrange(off, off + 8);
    assert(spec_u64_to_le_bytes(spec_u64_from_le_bytes(b)) == b);
    assert(put_u64(s, off, u64_at(s, off)) =~= s);
}

/// Reads the 32-bit word at `off`.
pub fn read_u32(data: &[u8], off: usize) -> (v: u32)
    requires
        off + 4 <= data@.len(),
    ensures
        v == u32_at(data@, off as int),
{
    let _len = data.len();
    u32_from_le_bytes(vstd::slice::slice_subrange(data, off, off + 4))
}

/// Reads the 64-bit word at `off`.
pub fn read_u64(data: &[u8], off: usize) -> (v: u64)
    requires
        off + 8 <= data@.len(),
    ensures
        v == u64_at(data@, off as int),
{
    let _len = data.len();
    u64_from_le_bytes(vstd::slice::slice_subrange(data, off, off + 8))
}

/// Reads the signed 32-bit word at `off`.
pub fn read_i32(data: &[u8], off: usize) -> (v: i32)
    requires
        off + 4 <= data@.len(),
    ensures
        v == i32_at(data@, off as int),
{
    read_u32(data, off) as i32
}

/// Copies `bytes` into `data` from offset `off` on.
fn write_bytes(data: &mut [u8], off: usize, bytes: &Vec<u8>)
    requires
        off + bytes@.len() <= old(data)@.len(),
    ensures
        final(data)@ == splice(old(data)@, off as int, bytes@),
{
    let n = bytes.len();
    let len = data.len();
    let mut i: usize = 0;
    while i < n
        invariant
            n == bytes@.len(),
            len == data@.len(),
            off + n <= data@.len(),
            i <= n,
            data@.len() == old(data)@.len(),
            forall|j: int| 0 <= j < data@.len() ==> #[trigger] data@[j] == (
                if off <= j < off + i { bytes@[j - off] } else { old(data)@[j] }),
        decreases n - i,
    {
        data[off + i] = bytes[i];
        i = i + 1;
    }
    assert(data@ =~= splice(old(data)@, off as int, bytes@));
}

/// Stores the 32-bit word `v` at `off`.
pub fn write_u32(data: &mut [u8], off: usize, v: u32)
    requires
        off + 4 <= old(data)@.len(),
    ensures
        final(data)@ == put_u32(old(data)@, off as int, v),
{
    let bytes = u32_to_le_bytes(v);
    write_bytes(data, off, &bytes);
}

/// Stores the 64-bit word `v` at `off`.
pub fn write_u64(data: &mut [u8], off: usize, v: u64)
    requires
        off + 8 <= old(data)@.len(),
    ensures
        final(data)@ == put_u64(old(data)@, off as int, v),
{
    let bytes = u64_to_le_bytes(v);
    write_bytes(data, off, &bytes);
}

/// Stores the signed 32-bit word `v` at `off`.
pub fn write_i32(data: &mut [u8], off: usize, v: i32)
    requires
        off + 4 <= old(data)@.len(),
    ensures
        final(data)@ == put_i32(old(data)@, off as int, v),
{
    write_u32(data, off, v as u32);
}

} // verus!
