//! The byte buffers of the `bytes` crate, as the packet code uses them.
//!
//! `Bytes` and `BytesMut` are opaque here; what they hold is named by
//! `bytes_view` and `bytes_mut_view`, and each method the library calls gets a
//! wrapper whose contract states what the method does to the contents and
//! what it returns.
use vstd::prelude::*;
use bytes::{Buf, BufMut};

verus! {

#[verifier::external_type_specification]
#[verifier::external_body]
pub struct ExBytes(bytes::Bytes);

#[verifier::external_type_specification]
#[verifier::external_body]
pub struct ExBytesMut(bytes::BytesMut);

/// The bytes a `Bytes` value holds, from its read position to its end.
pub uninterp spec fn bytes_view(b: bytes::Bytes) -> Seq<u8>;

/// The bytes written so far into a `BytesMut`.
pub uninterp spec fn bytes_mut_view(b: bytes::BytesMut) -> Seq<u8>;

/// Big-endian bytes of a `u16`.
pub open spec fn be16(n: u16) -> Seq<u8> {
    seq![(n / 0x100) as u8, (n % 0x100) as u8]
}

/// Big-endian bytes of a `u32`.
pub open spec fn be32(n: u32) -> Seq<u8> {
    seq![
        (n / 0x100_0000) as u8,
        ((n / 0x1_0000) % 0x100) as u8,
        ((n / 0x100) % 0x100) as u8,
        (n % 0x100) as u8,
    ]
}

/// The `u16` whose big-endian bytes start `b`.
pub open spec fn be16_value(b: Seq<u8>) -> u16 {
    (b[0] * 0x100 + b[1]) as u16
}

/// The `u32` whose big-endian bytes start `b`.
pub open spec fn be32_value(b: Seq<u8>) -> u32 {
    (b[0] * 0x100_0000 + b[1] * 0x1_0000 + b[2] * 0x100 + b[3]) as u32
}

/// `BytesMut::with_capacity`: an empty buffer. It panics when the capacity
/// exceeds `isize::MAX`, which `requires` leaves out.
#[verifier::external_body]
pub(crate) fn buffer_with_capacity(capacity: usize) -> (buf: bytes::BytesMut)
    requires
        capacity <= isize::MAX,
    ensures
        bytes_mut_view(buf) == Seq::<u8>::empty(),
{
    bytes::BytesMut::with_capacity(capacity)
}

/// `BufMut::put_u16` on `BytesMut`: appends the value's big-endian bytes.
/// Growing past `isize::MAX` bytes panics, which `requires` leaves out.
#[verifier::external_body]
pub(crate) fn buffer_put_u16(buf: &mut bytes::BytesMut, n: u16)
    requires
        bytes_mut_view(*old(buf)).len() + 2 <= isize::MAX,
    ensures
        bytes_mut_view(*final(buf)) == bytes_mut_view(*old(buf)) + be16(n),
{
    buf.put_u16(n)
}

/// `BufMut::put_u32` on `BytesMut`: appends the value's big-endian bytes.
#[verifier::external_body]
pub(crate) fn buffer_put_u32(buf: &mut bytes::BytesMut, n: u32)
    requires
        bytes_mut_view(*old(buf)).len() + 4 <= isize::MAX,
    ensures
        bytes_mut_view(*final(buf)) == bytes_mut_view(*old(buf)) + be32(n),
{
    buf.put_u32(n)
}

/// `BufMut::put_slice` on `BytesMut`: appends the slice.
#[verifier::external_body]
pub(crate) fn buffer_put_slice(buf: &mut bytes::BytesMut, src: &[u8])
    requires
        bytes_mut_view(*old(buf)).len() + src@.len() <= isize::MAX,
    ensures
        bytes_mut_view(*final(buf)) == bytes_mut_view(*old(buf)) + src@,
{
    buf.put_slice(src)
}

/// `BytesMut::freeze`: an immutable `Bytes` holding the same bytes.
#[verifier::external_body]
pub(crate) fn buffer_freeze(buf: bytes::BytesMut) -> (b: bytes::Bytes)
    ensures
        bytes_view(b) == bytes_mut_view(buf),
{
    buf.freeze()
}

/// `Bytes::len`: the number of bytes held.
#[verifier::external_body]
pub(crate) fn bytes_len(b: &bytes::Bytes) -> (n: usize)
    ensures
        n == bytes_view(*b).len(),
{
    b.len()
}

/// `Bytes::clone`: another handle on the same bytes.
#[verifier::external_body]
pub(crate) fn bytes_clone(b: &bytes::Bytes) -> (c: bytes::Bytes)
    ensures
        bytes_view(c) == bytes_view(*b),
{
    b.clone()
}

/// `From<String> for Bytes`: the string's UTF-8 bytes.
#[verifier::external_body]
pub(crate) fn bytes_from_string(s: String) -> (b: bytes::Bytes)
    ensures
        bytes_view(b) == vstd::utf8::encode_utf8(s@),
{
    bytes::Bytes::from(s)
}

/// `Buf::get_u16` on `Bytes`: reads a big-endian `u16` and advances past it.
/// It panics with fewer than 2 bytes left, which `requires` leaves out.
#[verifier::external_body]
pub(crate) fn bytes_get_u16(b: &mut bytes::Bytes) -> (n: u16)
    requires
        bytes_view(*old(b)).len() >= 2,
    ensures
        n == be16_value(bytes_view(*old(b))),
        bytes_view(*final(b)) == bytes_view(*old(b)).skip(2),
{
    b.get_u16()
}

/// `Buf::get_u32` on `Bytes`: reads a big-endian `u32` and advances past it.
/// It panics with fewer than 4 bytes left, which `requires` leaves out.
#[verifier::external_body]
pub(crate) fn bytes_get_u32(b: &mut bytes::Bytes) -> (n: u32)
    requires
        bytes_view(*old(b)).len() >= 4,
    ensures
        n == be32_value(bytes_view(*old(b))),
        bytes_view(*final(b)) == bytes_view(*old(b)).skip(4),
{
    b.get_u32()
}

/// Reading back the big-endian bytes of a `u16` gives the value.
pub proof fn lemma_be16_roundtrip(n: u16, rest: Seq<u8>)
    ensures
        be16_value(be16(n) + rest) == n,
{
    let b = be16(n) + rest;
    assert(b[0] == (n / 0x100) as u8 && b[1] == (n % 0x100) as u8);
}

/// Reading back the big-endian bytes of a `u32` gives the value.
pub proof fn lemma_be32_roundtrip(n: u32, rest: Seq<u8>)
    ensures
        be32_value(be32(n) + rest) == n,
{
    let b = be32(n) + rest;
    assert(b[0] == (n / 0x100_0000) as u8);
    assert(b[1] == ((n / 0x1_0000) % 0x100) as u8);
    assert(b[2] == ((n / 0x100) % 0x100) as u8);
    assert(b[3] == (n % 0x100) as u8);
    assert((n / 0x100_0000) * 0x100_0000 + ((n / 0x1_0000) % 0x100) * 0x1_0000 + ((n / 0x100)
        % 0x100) * 0x100 + (n % 0x100) == n) by (nonlinear_arith);
}

/// Writing the value read from two bytes gives those bytes back.
pub proof fn lemma_be16_value_bytes(b: Seq<u8>)
    requires
        b.len() >= 2,
    ensures
        be16(be16_value(b)) == b.take(2),
{
    let v = be16_value(b);
    assert(b[0] * 0x100 + b[1] < 0x1_0000);
    assert(v / 0x100 == b[0] && v % 0x100 == b[1]);
    assert(be16(v) =~= b.take(2));
}

/// Writing the value read from four bytes gives those bytes back.
pub proof fn lemma_be32_value_bytes(b: Seq<u8>)
    requires
        b.len() >= 4,
    ensures
        be32(be32_value(b)) == b.take(4),
{
    let (b0, b1, b2, b3) = (b[0] as int, b[1] as int, b[2] as int, b[3] as int);
    let v = b0 * 0x100_0000 + b1 * 0x1_0000 + b2 * 0x100 + b3;
    assert(0 <= v < 0x1_0000_0000 && v / 0x100_0000 == b0 && (v / 0x1_0000) % 0x100 == b1 && (v
        / 0x100) % 0x100 == b2 && v % 0x100 == b3) by (nonlinear_arith)
        requires
            0 <= b0 < 0x100,
            0 <= b1 < 0x100,
            0 <= b2 < 0x100,
            0 <= b3 < 0x100,
            v == b0 * 0x100_0000 + b1 * 0x1_0000 + b2 * 0x100 + b3,
    ;
    assert(be32(be32_value(b)) =~= b.take(4));
}

} // verus!
