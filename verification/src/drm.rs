//! Handlers of the generic DRM requests the card serves, working on the
//! kernel-side copy of the user argument.
//!
//! Copies into user memory are not made here: a handler returns them as
//! [`UserCopy`] values, in the order the requests make them, for the caller
//! to perform; `request::generic_step` decides what the ioctl returns when
//! one of them fails.

use vstd::prelude::*;
use crate::error::DevError;
use crate::records::{DrmGemFlink, DrmPrimeHandle, DrmUnique, DrmVersion};
use crate::records;

verus! {

/// A copy of `bytes` to the user address `dst`.
#[derive(Debug, PartialEq, Eq)]
pub struct UserCopy {
    pub dst: u64,
    pub bytes: Vec<u8>,
}

impl UserCopy {
    /// The copy as plain values: destination and bytes.
    pub open spec fn model(self) -> (u64, Seq<u8>) {
        (self.dst, self.bytes@)
    }
}

/// An optional copy as plain values.
pub open spec fn copy_model(c: Option<UserCopy>) -> Option<(u64, Seq<u8>)> {
    match c {
        Some(u) => Some(u.model()),
        None => None,
    }
}

/// `n` is the length of the C string at the start of `s`: the index of its
/// first NUL byte.
pub open spec fn is_c_strlen(s: Seq<u8>, n: int) -> bool {
    &&& 0 <= n < s.len()
    &&& s[n] == 0
    &&& forall|j: int| 0 <= j < n ==> s[j] != 0
}

/// `s` holds a NUL byte, so it starts with a C string.
pub open spec fn is_c_string(s: Seq<u8>) -> bool {
    exists|n: int| 0 <= n < s.len() && s[n] == 0
}

/// Length of the C string at the start of `s`.
pub open spec fn c_strlen(s: Seq<u8>) -> int {
    choose|n: int| is_c_strlen(s, n)
}

/// A byte sequence holds at most one first NUL byte.
pub proof fn lemma_c_strlen_unique(s: Seq<u8>, n: int, m: int)
    requires
        is_c_strlen(s, n),
        is_c_strlen(s, m),
    ensures
        n == m,
{
    if n < m {
        assert(s[n] != 0);
    } else if m < n {
        assert(s[m] != 0);
    }
}

/// The C string of a sequence that holds a NUL byte ends at its first one.
pub proof fn lemma_c_strlen_exists(s: Seq<u8>)
    requires
        is_c_string(s),
    ensures
        is_c_strlen(s, c_strlen(s)),
{
    let k = choose|k: int| 0 <= k < s.len() && s[k] == 0;
    lemma_first_nul(s, k, 0);
}

proof fn lemma_first_nul(s: Seq<u8>, k: int, i: int)
    requires
        0 <= k < s.len(),
        s[k] == 0,
        0 <= i <= k,
        forall|j: int| 0 <= j < i ==> s[j] != 0,
    ensures
        exists|n: int| is_c_strlen(s, n),
    decreases k - i,
{
    if s[i] == 0 {
        assert(is_c_strlen(s, i));
    } else {
        lemma_first_nul(s, k, i + 1);
    }
}

/// A text without NUL bytes, followed by a NUL, is a C string as long as
/// the text.
pub proof fn lemma_c_strlen_of_text(text: Seq<u8>)
    requires
        forall|j: int| 0 <= j < text.len() ==> text[j] != 0,
    ensures
        is_c_string(text.push(0)),
        c_strlen(text.push(0)) == text.len(),
{
    let s = text.push(0);
    assert(s[text.len() as int] == 0);
    assert(is_c_strlen(s, text.len() as int));
    lemma_c_strlen_exists(s);
    lemma_c_strlen_unique(s, c_strlen(s), text.len() as int);
}

/// Measures the C string at the start of `value`.
pub fn c_string_len(value: &[u8]) -> (n: usize)
    requires
        is_c_string(value@),
    ensures
        n == c_strlen(value@),
        is_c_strlen(value@, n as int),
{
    proof {
        lemma_c_strlen_exists(value@);
    }
    let len = value.len();
    let mut i: usize = 0;
    while value[i] != 0
        invariant
            len == value@.len(),
            is_c_strlen(value@, c_strlen(value@)),
            0 <= i <= c_strlen(value@),
            forall|j: int| 0 <= j < i ==> value@[j] != 0,
        decreases c_strlen(value@) - i,
    {
        i = i + 1;
    }
    proof {
        lemma_c_strlen_unique(value@, i as int, c_strlen(value@));
    }
    i
}

/// Number of bytes of a string of length `len` that fit a user buffer of
/// `cap` bytes.
pub open spec fn fitted_len(len: int, cap: int) -> int {
    if len > cap { cap } else { len }
}

/// The copy made for a string field: at most as many bytes of `text` as the
/// user buffer holds, and none when that is nothing or the buffer is null.
pub open spec fn field_copy(buf: u64, cap: u64, text: Seq<u8>) -> Option<(u64, Seq<u8>)> {
    let n = fitted_len(text.len() as int, cap as int);
    if n > 0 && buf != 0 {
        Some((buf, text.subrange(0, n)))
    } else {
        None
    }
}

/// Hands a C string back to a user string field, the way the kernel's
/// `drm_copy_field` does.
///
/// `buf` is the user buffer address and `buf_len` the field's length, which
/// on entry is the buffer's capacity and on return the string's full length.
/// A missing string (`None`) sets the length to zero. Otherwise the returned
/// copy, if any, holds the longest prefix of the string that fits the
/// buffer; nothing is copied to a null buffer.
pub fn drm_copy_field(buf: u64, buf_len: &mut u64, value: Option<&[u8]>) -> (copy: Option<UserCopy>)
    requires
        value matches Some(v) ==> is_c_string(v@),
    ensures
        value is None ==> *final(buf_len) == 0 && copy is None,
        value matches Some(v) ==> {
            let text = v@.subrange(0, c_strlen(v@));
            &&& *final(buf_len) == c_strlen(v@)
            &&& copy_model(copy) == field_copy(buf, *old(buf_len), text)
        },
        copy matches Some(c) ==> c.bytes@.len() <= *old(buf_len) && c.bytes@.len() <= *final(buf_len),
        value matches Some(v) ==> (buf != 0 && 0 < c_strlen(v@) && c_strlen(v@) <= *old(buf_len) ==> (
            copy matches Some(c) && c.dst == buf && c.bytes@ == v@.subrange(0, c_strlen(v@)))),
        value matches Some(v) ==> (buf != 0 && 0 < *old(buf_len) && *old(buf_len) < c_strlen(v@) ==> (
            copy matches Some(c) && c.dst == buf && c.bytes@ == v@.subrange(0, *old(buf_len) as int))),
{
    match value {
        None => {
            *buf_len = 0;
            None
        },
        Some(v) => {
            proof {
                lemma_c_strlen_exists(v@);
                let text = v@.subrange(0, c_strlen(v@));
                lemma_field_copy_longest_fitting_prefix(buf, *old(buf_len), text);
                if *old(buf_len) < c_strlen(v@) {
                    assert(text.subrange(0, *old(buf_len) as int) =~= v@.subrange(0, *old(buf_len) as int));
                }
            }
            let len = c_string_len(v) as u64;
            let original_buf_len = *buf_len;
            *buf_len = len;
            let copy_len = if len > original_buf_len {
                original_buf_len
            } else {
                len
            };
            if copy_len > 0 && buf != 0 {
                let bytes = vstd::slice::slice_to_vec(
                    vstd::slice::slice_subrange(v, 0, copy_len as usize),
                );
                proof {
                    assert(bytes@ =~= v@.subrange(0, c_strlen(v@)).subrange(0, copy_len as int));
                }
                Some(UserCopy { dst: buf, bytes })
            } else {
                None
            }
        },
    }
}

/// The driver name reported by the version query.
pub open spec fn driver_name() -> Seq<u8> {
    seq![0x72u8, 0x6b, 0x6e, 0x70, 0x75]
}

/// The driver date reported by the version query.
pub open spec fn driver_date() -> Seq<u8> {
    seq![0x32u8, 0x30, 0x32, 0x34, 0x30, 0x38, 0x32, 0x38]
}

/// The driver description reported by the version query.
pub open spec fn driver_desc() -> Seq<u8> {
    seq![0x52u8, 0x4b, 0x4e, 0x50, 0x55, 0x20, 0x64, 0x72, 0x69, 0x76, 0x65, 0x72]
}

fn driver_name_cstr() -> (s: Vec<u8>)
    ensures
        s@ == driver_name().push(0),
        is_c_string(s@),
        c_strlen(s@) == driver_name().len(),
{
    let s: Vec<u8> = vec![0x72u8, 0x6b, 0x6e, 0x70, 0x75, 0];
    proof {
        assert(s@ =~= driver_name().push(0));
        lemma_c_strlen_of_text(driver_name());
    }
    s
}

fn driver_date_cstr() -> (s: Vec<u8>)
    ensures
        s@ == driver_date().push(0),
        is_c_string(s@),
        c_strlen(s@) == driver_date().len(),
{
    let s: Vec<u8> = vec![0x32u8, 0x30, 0x32, 0x34, 0x30, 0x38, 0x32, 0x38, 0];
    proof {
        assert(s@ =~= driver_date().push(0));
        lemma_c_strlen_of_text(driver_date());
    }
    s
}

fn driver_desc_cstr() -> (s: Vec<u8>)
    ensures
        s@ == driver_desc().push(0),
        is_c_string(s@),
        c_strlen(s@) == driver_desc().len(),
{
    let s: Vec<u8> = vec![0x52u8, 0x4b, 0x4e, 0x50, 0x55, 0x20, 0x64, 0x72, 0x69, 0x76, 0x65, 0x72, 0];
    proof {
        assert(s@ =~= driver_desc().push(0));
        lemma_c_strlen_of_text(driver_desc());
    }
    s
}

/// The version record the query leaves behind, given the one user space
/// passed: version 0.9.8 and the full lengths of the three strings; the
/// buffer addresses are kept.
pub open spec fn answered_version(r: DrmVersion) -> DrmVersion {
    DrmVersion {
        version_major: 0,
        version_minor: 9,
        version_patchlevel: 8,
        name_len: driver_name().len() as u64,
        date_len: driver_date().len() as u64,
        desc_len: driver_desc().len() as u64,
        ..r
    }
}

/// An optional copy as a sequence of zero or one copies.
pub open spec fn opt_seq(c: Option<(u64, Seq<u8>)>) -> Seq<(u64, Seq<u8>)> {
    match c {
        Some(x) => seq![x],
        None => Seq::empty(),
    }
}

/// The copies the version query makes, in order: name, date, description,
/// each into the buffer user space gave for it.
pub open spec fn version_copies(r: DrmVersion) -> Seq<(u64, Seq<u8>)> {
    opt_seq(field_copy(r.name, r.name_len, driver_name()))
        + opt_seq(field_copy(r.date, r.date_len, driver_date()))
        + opt_seq(field_copy(r.desc, r.desc_len, driver_desc()))
}

fn push_copy(copies: &mut Vec<UserCopy>, c: Option<UserCopy>)
    ensures
        final(copies)@.map_values(|u: UserCopy| u.model())
            == old(copies)@.map_values(|u: UserCopy| u.model()) + opt_seq(copy_model(c)),
{
    match c {
        Some(u) => {
            copies.push(u);
            assert(copies@.map_values(|u: UserCopy| u.model()) =~= old(copies)@.map_values(
                |u: UserCopy| u.model(),
            ) + opt_seq(copy_model(c)));
        },
        None => {
            assert(copies@.map_values(|u: UserCopy| u.model()) =~= old(copies)@.map_values(
                |u: UserCopy| u.model(),
            ) + opt_seq(copy_model(c)));
        },
    }
}

/// Answers the version query in the argument record at the start of
/// `data`: writes version 0.9.8 and the lengths of the driver's name, date
/// and description, and returns the copies of those strings into the user
/// buffers the record names.
pub fn drm_version(data: &mut [u8]) -> (copies: Vec<UserCopy>)
    requires
        old(data)@.len() >= records::DRM_VERSION_SIZE,
    ensures
        final(data)@ == answered_version(DrmVersion::parse(old(data)@)).emit(old(data)@),
        copies@.map_values(|u: UserCopy| u.model()) == version_copies(DrmVersion::parse(old(data)@)),
{
    let mut v = DrmVersion::read(data);
    let ghost r = v;
    v.version_major = 0;
    v.version_minor = 9;
    v.version_patchlevel = 8;
    let name = driver_name_cstr();
    let date = driver_date_cstr();
    let desc = driver_desc_cstr();
    let mut copies: Vec<UserCopy> = Vec::new();
    let c = drm_copy_field(v.name, &mut v.name_len, Some(name.as_slice()));
    proof {
        assert(name@.subrange(0, c_strlen(name@)) =~= driver_name());
    }
    push_copy(&mut copies, c);
    let c = drm_copy_field(v.date, &mut v.date_len, Some(date.as_slice()));
    proof {
        assert(date@.subrange(0, c_strlen(date@)) =~= driver_date());
    }
    push_copy(&mut copies, c);
    let c = drm_copy_field(v.desc, &mut v.desc_len, Some(desc.as_slice()));
    proof {
        assert(desc@.subrange(0, c_strlen(desc@)) =~= driver_desc());
    }
    push_copy(&mut copies, c);
    v.write(data);
    proof {
        assert(v == answered_version(r));
        assert(copies@.map_values(|u: UserCopy| u.model()) =~= version_copies(r));
    }
    copies
}

/// Answers the bus-id query: the card has no bus id, so the length in the
/// record at the start of `data` is set to zero.
pub fn drm_get_unique(data: &mut [u8]) -> (r: Result<(), DevError>)
    requires
        old(data)@.len() >= records::DRM_UNIQUE_SIZE,
    ensures
        r == Ok::<(), DevError>(()),
        final(data)@ == (DrmUnique { unique_len: 0, ..DrmUnique::parse(old(data)@) }).emit(old(data)@),
{
    let mut unique = DrmUnique::read(data);
    unique.unique_len = 0;
    unique.write(data);
    Ok(())
}

/// Accepts a request to set the bus id and leaves everything as it is:
/// setting it is not supported.
pub fn drm_set_unique(data: &mut [u8]) -> (r: Result<(), DevError>)
    requires
        old(data)@.len() >= records::DRM_UNIQUE_SIZE,
    ensures
        r == Ok::<(), DevError>(()),
        final(data)@ == old(data)@,
{
    let _unique = DrmUnique::read(data);
    Ok(())
}

/// Refuses to give a buffer object a global name: no such object is known.
pub fn drm_gem_flink_ioctl(data: &mut [u8]) -> (r: Result<usize, DevError>)
    requires
        old(data)@.len() >= records::DRM_GEM_FLINK_SIZE,
    ensures
        r == Err::<usize, DevError>(DevError::NotFound),
        final(data)@ == old(data)@,
{
    let _flink = DrmGemFlink::read(data);
    Err(DevError::NotFound)
}

/// File descriptor reported for every exported buffer object.
pub const EXPORTED_FD: i32 = 1;

/// Answers the export of a buffer object as a file descriptor with a fixed
/// descriptor, leaving handle and flags as they are.
pub fn drm_prime_handle_to_fd_ioctl(data: &mut [u8]) -> (r: Result<usize, DevError>)
    requires
        old(data)@.len() >= records::DRM_PRIME_HANDLE_SIZE,
    ensures
        r == Ok::<usize, DevError>(0),
        final(data)@ == (DrmPrimeHandle { fd: EXPORTED_FD, ..DrmPrimeHandle::parse(old(data)@) }).emit(
            old(data)@,
        ),
{
    let mut handle = DrmPrimeHandle::read(data);
    handle.fd = EXPORTED_FD;
    handle.write(data);
    Ok(0)
}

/// A string field gets the longest prefix of the string that fits the user
/// buffer: all of it when the buffer holds at least the string, the first
/// `cap` bytes when the buffer is shorter, and nothing for an empty string,
/// an empty buffer or a null buffer.
pub proof fn lemma_field_copy_longest_fitting_prefix(buf: u64, cap: u64, text: Seq<u8>)
    ensures
        buf == 0 ==> field_copy(buf, cap, text) is None,
        cap == 0 ==> field_copy(buf, cap, text) is None,
        text.len() == 0 ==> field_copy(buf, cap, text) is None,
        buf != 0 && 0 < text.len() && text.len() <= cap ==> field_copy(buf, cap, text) == Some((buf, text)),
        buf != 0 && 0 < cap && cap < text.len() ==> field_copy(buf, cap, text) == Some(
            (buf, text.subrange(0, cap as int)),
        ),
{
    assert(text.subrange(0, text.len() as int) =~= text);
}

/// The version query reports version 0.9.8 and the lengths 5, 8 and 12 of
/// "rknpu", "20240828" and "RKNPU driver", keeps the three buffer addresses,
/// and copies each string whole into a non-null buffer that holds it.
pub proof fn lemma_version_answer(s: Seq<u8>)
    requires
        s.len() >= records::DRM_VERSION_SIZE,
    ensures
        ({
            let r = DrmVersion::parse(s);
            let a = DrmVersion::parse(answered_version(r).emit(s));
            &&& a.version_major == 0
            &&& a.version_minor == 9
            &&& a.version_patchlevel == 8
            &&& a.name_len == 5
            &&& a.date_len == 8
            &&& a.desc_len == 12
            &&& a.name == r.name
            &&& a.date == r.date
            &&& a.desc == r.desc
        }),
        ({
            let r = DrmVersion::parse(s);
            r.name != 0 && r.name_len >= 5 ==> version_copies(r)[0] == (r.name, driver_name())
        }),
        ({
            let r = DrmVersion::parse(s);
            r.name != 0 && r.name_len >= 5 && r.date != 0 && r.date_len >= 8 && r.desc != 0
                && r.desc_len >= 12 ==> version_copies(r) == seq![
                (r.name, driver_name()),
                (r.date, driver_date()),
                (r.desc, driver_desc()),
            ]
        }),
{
    let r = DrmVersion::parse(s);
    records::lemma_drm_version_round_trip(answered_version(r), s);
    lemma_field_copy_longest_fitting_prefix(r.name, r.name_len, driver_name());
    lemma_field_copy_longest_fitting_prefix(r.date, r.date_len, driver_date());
    lemma_field_copy_longest_fitting_prefix(r.desc, r.desc_len, driver_desc());
    if r.name != 0 && r.name_len >= 5 {
        assert(version_copies(r)[0] == (r.name, driver_name()));
    }
    if r.name != 0 && r.name_len >= 5 && r.date != 0 && r.date_len >= 8 && r.desc != 0 && r.desc_len >= 12 {
        assert(version_copies(r) =~= seq![
            (r.name, driver_name()),
            (r.date, driver_date()),
            (r.desc, driver_desc()),
        ]);
    }
}

} // verus!
