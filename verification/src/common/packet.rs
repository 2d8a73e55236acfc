//! The RTP-like voice packet: a fixed 10-byte header followed by the raw Opus
//! payload, which the forwarder never decodes.
use vstd::prelude::*;
use crate::common::text::{decimal, push_str, u64_to_string};
use crate::common::buf::{
    be16, be16_value, be32, be32_value, buffer_freeze, buffer_put_slice, buffer_put_u16,
    buffer_put_u32, buffer_with_capacity, bytes_get_u16, bytes_get_u32, bytes_len, bytes_mut_view,
    bytes_view, lemma_be16_roundtrip, lemma_be16_value_bytes, lemma_be32_roundtrip,
    lemma_be32_value_bytes,
};

verus! {

/// Header size in bytes: 2 (sequence) + 4 (timestamp) + 4 (ssrc).
pub const HEADER_LEN: usize = 10;

/// A minimal RTP-like header. The forwarder only ever reads this.
#[derive(Debug, Clone, Copy, PartialEq, Eq)]
pub struct Header {
    pub sequence: u16,
    pub timestamp: u32,
    pub ssrc: u32,
}

#[derive(Debug, Clone, Copy, PartialEq, Eq)]
pub enum DecodeError {
    /// The packet holds fewer than `HEADER_LEN` bytes; the field is its length.
    TooShort(usize),
}

impl DecodeError {
    /// The error's description.
    pub fn message(&self) -> (text: String)
        ensures
            match *self {
                DecodeError::TooShort(n) => text@ == "packet too short: "@ + decimal(n as nat)
                    + " bytes, need at least "@ + decimal(HEADER_LEN as nat),
            },
    {
        match self {
            DecodeError::TooShort(n) => {
                let mut text = "packet too short: ".to_owned();
                push_str(&mut text, u64_to_string(*n as u64).as_str());
                push_str(&mut text, " bytes, need at least ");
                push_str(&mut text, u64_to_string(HEADER_LEN as u64).as_str());
                text
            },
        }
    }
}

/// The wire form of a header: each field big-endian, in field order.
pub open spec fn header_bytes(h: Header) -> Seq<u8> {
    be16(h.sequence) + be32(h.timestamp) + be32(h.ssrc)
}

/// The header that the first `HEADER_LEN` bytes of `b` encode.
pub open spec fn parse_header(b: Seq<u8>) -> Header {
    Header {
        sequence: be16_value(b),
        timestamp: be32_value(b.subrange(2, 6)),
        ssrc: be32_value(b.subrange(6, 10)),
    }
}

/// The result `decode` gives for a packet holding `b`, with the payload
/// given by its bytes.
pub open spec fn decode_spec(b: Seq<u8>) -> Result<(Header, Seq<u8>), DecodeError> {
    if b.len() < HEADER_LEN {
        Err(DecodeError::TooShort(b.len() as usize))
    } else {
        Ok((parse_header(b), b.skip(HEADER_LEN as int)))
    }
}

/// Writes `header` then `payload` into one packet.
pub fn encode(header: Header, payload: &[u8]) -> (packet: bytes::Bytes)
    requires
        payload@.len() + HEADER_LEN <= isize::MAX,
    ensures
        bytes_view(packet) == header_bytes(header) + payload@,
{
    let mut buf = buffer_with_capacity(HEADER_LEN + payload.len());
    buffer_put_u16(&mut buf, header.sequence);
    buffer_put_u32(&mut buf, header.timestamp);
    buffer_put_u32(&mut buf, header.ssrc);
    buffer_put_slice(&mut buf, payload);
    assert(bytes_mut_view(buf) =~= header_bytes(header) + payload@);
    buffer_freeze(buf)
}

/// Splits a raw packet into its header and payload. The payload `Bytes` is a
/// view into the same buffer, not a fresh allocation.
pub fn decode(packet: bytes::Bytes) -> (r: Result<(Header, bytes::Bytes), DecodeError>)
    ensures
        match (r, decode_spec(bytes_view(packet))) {
            (Ok((h, p)), Ok((sh, sp))) => h == sh && bytes_view(p) == sp,
            (Err(e), Err(se)) => e == se,
            _ => false,
        },
{
    let mut packet = packet;
    let len = bytes_len(&packet);
    if len < HEADER_LEN {
        return Err(DecodeError::TooShort(len));
    }
    let ghost whole = bytes_view(packet);
    let sequence = bytes_get_u16(&mut packet);
    let timestamp = bytes_get_u32(&mut packet);
    proof {
        assert(whole.skip(2).subrange(0, 4) =~= whole.subrange(2, 6));
    }
    let ssrc = bytes_get_u32(&mut packet);
    proof {
        assert(whole.skip(2).skip(4).subrange(0, 4) =~= whole.subrange(6, 10));
        assert(bytes_view(packet) =~= whole.skip(10));
        assert(be32_value(whole.skip(2)) == be32_value(whole.subrange(2, 6)));
        assert(be32_value(whole.skip(2).skip(4)) == be32_value(whole.subrange(6, 10)));
    }
    Ok((Header { sequence, timestamp, ssrc }, packet))
}

/// Decoding an encoded packet gives back the header and the payload.
pub proof fn lemma_decode_encode(h: Header, payload: Seq<u8>)
    ensures
        header_bytes(h).len() == HEADER_LEN,
        decode_spec(header_bytes(h) + payload) == Ok::<(Header, Seq<u8>), DecodeError>((h, payload)),
{
    let b = header_bytes(h) + payload;
    lemma_be16_roundtrip(h.sequence, b.skip(2));
    assert(b =~= be16(h.sequence) + b.skip(2));
    assert(b.subrange(2, 6) =~= be32(h.timestamp) + Seq::<u8>::empty());
    lemma_be32_roundtrip(h.timestamp, Seq::<u8>::empty());
    assert(b.subrange(6, 10) =~= be32(h.ssrc) + Seq::<u8>::empty());
    lemma_be32_roundtrip(h.ssrc, Seq::<u8>::empty());
    assert(b.skip(10) =~= payload);
}

/// Encoding what a packet decodes to gives back the packet's bytes.
pub proof fn lemma_encode_decode(b: Seq<u8>)
    requires
        b.len() >= HEADER_LEN,
    ensures
        decode_spec(b) matches Ok((h, p)) && header_bytes(h) + p == b,
{
    let h = parse_header(b);
    lemma_be16_value_bytes(b);
    lemma_be32_value_bytes(b.subrange(2, 6));
    lemma_be32_value_bytes(b.subrange(6, 10));
    assert(b.subrange(2, 6).take(4) =~= b.subrange(2, 6));
    assert(b.subrange(6, 10).take(4) =~= b.subrange(6, 10));
    assert(header_bytes(h) + b.skip(10) =~= b);
}

} // verus!
