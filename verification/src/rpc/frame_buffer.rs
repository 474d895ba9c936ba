//! The byte buffer that framed messages are read from and written to.
//!
//! `bytes::BytesMut` is used as it stands; the functions here are the only
//! places that touch it, and each says what it does to the buffer's bytes.
use vstd::prelude::*;

verus! {

#[verifier::external_type_specification]
#[verifier::external_body]
pub struct ExBytesMut(bytes::BytesMut);

/// The bytes a `BytesMut` currently holds, first byte first.
pub uninterp spec fn buffer_bytes(b: bytes::BytesMut) -> Seq<u8>;

/// The four bytes of `n`, least significant first.
pub open spec fn u32_le_bytes(n: u32) -> Seq<u8> {
    seq![
        (n % 256) as u8,
        ((n / 256) % 256) as u8,
        ((n / 65536) % 256) as u8,
        ((n / 16777216) % 256) as u8,
    ]
}

/// `BytesMut::len`: the number of bytes held.
#[verifier::external_body]
pub(crate) fn buffer_len(b: &bytes::BytesMut) -> (n: usize)
    ensures
        n == buffer_bytes(*b).len(),
{
    b.len()
}

/// Reading one byte through `BytesMut`'s `Deref` to `[u8]`.
#[verifier::external_body]
pub(crate) fn buffer_byte(b: &bytes::BytesMut, i: usize) -> (v: u8)
    requires
        i < buffer_bytes(*b).len(),
    ensures
        v == buffer_bytes(*b)[i as int],
{
    b[i]
}

/// `Buf::advance` on a `BytesMut`: drops the first `cnt` bytes.
/// The crate panics when `cnt` is more than the length.
#[verifier::external_body]
pub(crate) fn buffer_advance(b: &mut bytes::BytesMut, cnt: usize)
    requires
        cnt <= buffer_bytes(*old(b)).len(),
    ensures
        buffer_bytes(*final(b)) == buffer_bytes(*old(b)).skip(cnt as int),
{
    bytes::Buf::advance(b, cnt)
}

/// `BytesMut::split_to`: the first `at` bytes come out, the rest stay.
/// The crate panics when `at` is more than the length.
#[verifier::external_body]
pub(crate) fn buffer_split_to(b: &mut bytes::BytesMut, at: usize) -> (head: bytes::BytesMut)
    requires
        at <= buffer_bytes(*old(b)).len(),
    ensures
        buffer_bytes(head) == buffer_bytes(*old(b)).take(at as int),
        buffer_bytes(*final(b)) == buffer_bytes(*old(b)).skip(at as int),
{
    b.split_to(at)
}

/// `BytesMut::reserve`: makes room; the bytes held do not change.
/// The crate panics when the new capacity would pass `isize::MAX`.
#[verifier::external_body]
pub(crate) fn buffer_reserve(b: &mut bytes::BytesMut, additional: usize)
    requires
        buffer_bytes(*old(b)).len() + additional <= isize::MAX,
    ensures
        buffer_bytes(*final(b)) == buffer_bytes(*old(b)),
{
    b.reserve(additional)
}

/// `BufMut::put_u32_le` on a `BytesMut`: appends the four little-endian bytes of `n`.
#[verifier::external_body]
pub(crate) fn buffer_put_u32_le(b: &mut bytes::BytesMut, n: u32)
    requires
        buffer_bytes(*old(b)).len() + 4 <= isize::MAX,
    ensures
        buffer_bytes(*final(b)) == buffer_bytes(*old(b)) + u32_le_bytes(n),
{
    bytes::BufMut::put_u32_le(b, n)
}

/// `BytesMut::extend_from_slice`: appends the bytes of `s`.
#[verifier::external_body]
pub(crate) fn buffer_extend_from_slice(b: &mut bytes::BytesMut, s: &[u8])
    requires
        buffer_bytes(*old(b)).len() + s@.len() <= isize::MAX,
    ensures
        buffer_bytes(*final(b)) == buffer_bytes(*old(b)) + s@,
{
    b.extend_from_slice(s)
}

} // verus!
