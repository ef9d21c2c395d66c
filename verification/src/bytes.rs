//! Fixed-width integers stored in byte buffers, in little-endian and big-endian order.
use byteorder::{BigEndian, ByteOrder, LittleEndian};
use vstd::prelude::*;
use vstd::slice::slice_subrange;
#[allow(unused_imports)]
use vstd::string::*;

verus! {

/// The little-endian `u16` stored at `off` in `s`.
pub open spec fn spec_u16_le(s: Seq<u8>, off: int) -> u16 {
    (s[off] as int + 256 * (s[off + 1] as int)) as u16
}

/// The little-endian `u32` stored at `off` in `s`.
pub open spec fn spec_u32_le(s: Seq<u8>, off: int) -> u32 {
    (s[off] as int + 0x100 * (s[off + 1] as int) + 0x1_0000 * (s[off + 2] as int) + 0x100_0000 * (
    s[off + 3] as int)) as u32
}

/// The big-endian `u16` stored at `off` in `s`.
pub open spec fn spec_u16_be(s: Seq<u8>, off: int) -> u16 {
    (256 * (s[off] as int) + s[off + 1] as int) as u16
}

/// The big-endian `u32` stored at `off` in `s`.
pub open spec fn spec_u32_be(s: Seq<u8>, off: int) -> u32 {
    (0x100_0000 * (s[off] as int) + 0x1_0000 * (s[off + 1] as int) + 0x100 * (s[off + 2] as int)
        + s[off + 3] as int) as u32
}

/// `byteorder::LittleEndian::read_u16`: the first two bytes of `buf` as a little-endian `u16`.
/// It panics when `buf` is shorter than two bytes, which `requires` rules out.
#[verifier::external_body]
fn le_read_u16(buf: &[u8]) -> (r: u16)
    requires
        buf@.len() >= 2,
    ensures
        r == spec_u16_le(buf@, 0),
{
    LittleEndian::read_u16(buf)
}

/// `byteorder::LittleEndian::read_u32`: the first four bytes of `buf` as a little-endian `u32`.
/// It panics when `buf` is shorter than four bytes, which `requires` rules out.
#[verifier::external_body]
fn le_read_u32(buf: &[u8]) -> (r: u32)
    requires
        buf@.len() >= 4,
    ensures
        r == spec_u32_le(buf@, 0),
{
    LittleEndian::read_u32(buf)
}

/// `byteorder::BigEndian::read_u16`: the first two bytes of `buf` as a big-endian `u16`.
/// It panics when `buf` is shorter than two bytes, which `requires` rules out.
#[verifier::external_body]
fn be_read_u16(buf: &[u8]) -> (r: u16)
    requires
        buf@.len() >= 2,
    ensures
        r == spec_u16_be(buf@, 0),
{
    BigEndian::read_u16(buf)
}

/// `byteorder::BigEndian::read_u32`: the first four bytes of `buf` as a big-endian `u32`.
/// It panics when `buf` is shorter than four bytes, which `requires` rules out.
#[verifier::external_body]
fn be_read_u32(buf: &[u8]) -> (r: u32)
    requires
        buf@.len() >= 4,
    ensures
        r == spec_u32_be(buf@, 0),
{
    BigEndian::read_u32(buf)
}

/// The little-endian `u16` stored at `off` in `data`.
pub fn u16_le_at(data: &[u8], off: usize) -> (r: u16)
    requires
        off + 2 <= data@.len(),
    ensures
        r == spec_u16_le(data@, off as int),
{
    let len = data.len();
    assert(off + 2 <= len);
    le_read_u16(slice_subrange(data, off, off + 2))
}

/// The little-endian `u32` stored at `off` in `data`.
pub fn u32_le_at(data: &[u8], off: usize) -> (r: u32)
    requires
        off + 4 <= data@.len(),
    ensures
        r == spec_u32_le(data@, off as int),
{
    let len = data.len();
    assert(off + 4 <= len);
    le_read_u32(slice_subrange(data, off, off + 4))
}

/// The big-endian `u16` stored at `off` in `data`.
pub fn u16_be_at(data: &[u8], off: usize) -> (r: u16)
    requires
        off + 2 <= data@.len(),
    ensures
        r == spec_u16_be(data@, off as int),
{
    let len = data.len();
    assert(off + 2 <= len);
    be_read_u16(slice_subrange(data, off, off + 2))
}

/// The big-endian `u32` stored at `off` in `data`.
pub fn u32_be_at(data: &[u8], off: usize) -> (r: u32)
    requires
        off + 4 <= data@.len(),
    ensures
        r == spec_u32_be(data@, off as int),
{
    let len = data.len();
    assert(off + 4 <= len);
    be_read_u32(slice_subrange(data, off, off + 4))
}

/// `core::str::from_utf8` from std: the bytes as a string slice when they are valid UTF-8, which
/// the std documentation defines as the result being `Ok`.
#[verifier::external_body]
pub(crate) fn str_from_utf8(v: &[u8]) -> (r: Option<&str>)
    ensures
        r is Some <==> vstd::utf8::valid_utf8(v@),
        r matches Some(s) ==> s.spec_bytes() == v@,
{
    core::str::from_utf8(v).ok()
}

/// The ASCII lowercase form of a byte: `A`..=`Z` become `a`..=`z`, other bytes are unchanged.
pub open spec fn spec_ascii_lower(b: u8) -> u8 {
    if 0x41 <= b <= 0x5a {
        (b + 0x20) as u8
    } else {
        b
    }
}

/// Whether two byte strings are equal when ASCII letters are compared without regard to case.
pub open spec fn spec_eq_ignore_ascii_case(a: Seq<u8>, b: Seq<u8>) -> bool {
    a.len() == b.len() && forall|i: int| 0 <= i < a.len() ==> spec_ascii_lower(#[trigger] a[i])
        == spec_ascii_lower(b[i])
}

/// Returns the ASCII lowercase form of a byte.
pub fn ascii_lower(b: u8) -> (r: u8)
    ensures
        r == spec_ascii_lower(b),
{
    if 0x41 <= b && b <= 0x5a {
        b + 0x20
    } else {
        b
    }
}

/// Returns whether two byte strings are equal when ASCII letters are compared without regard to
/// case, as `str::eq_ignore_ascii_case` compares them.
pub fn eq_ignore_ascii_case(a: &[u8], b: &[u8]) -> (r: bool)
    ensures
        r == spec_eq_ignore_ascii_case(a@, b@),
{
    if a.len() != b.len() {
        return false;
    }
    let n = a.len();
    let mut i: usize = 0;
    while i < n
        invariant
            n == a@.len(),
            n == b@.len(),
            i <= n,
            forall|j: int| 0 <= j < i ==> spec_ascii_lower(#[trigger] a@[j]) == spec_ascii_lower(b@[j]),
        decreases n - i,
    {
        if ascii_lower(a[i]) != ascii_lower(b[i]) {
            return false;
        }
        i = i + 1;
    }
    true
}

} // verus!
