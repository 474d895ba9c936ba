//! Length-prefixed framing of messages on a byte stream.
//!
//! Frame format: `[length: u32, little endian][data: length bytes]`.
use vstd::prelude::*;

use crate::rpc::frame_buffer::{
    buffer_advance, buffer_byte, buffer_bytes, buffer_extend_from_slice, buffer_len,
    buffer_put_u32_le, buffer_reserve, buffer_split_to, u32_le_bytes,
};

verus! {

/// The largest frame body that is accepted (1 MiB).
pub const MAX_FRAME_LEN: usize = 1048576;

/// Why a frame was refused.
#[derive(Debug, Clone, PartialEq, Eq, Structural)]
pub enum CodecError {
    /// The length prefix announces a body over `MAX_FRAME_LEN` bytes.
    MessageTooLarge,
}

/// The codec for `[length: u32][data: bytes]` frames.
#[derive(Debug, Clone, Copy)]
pub struct MessageCodec;

/// What a buffer holds, seen from the front, as far as framing goes.
pub enum FrameScan {
    /// Not yet a whole frame: more bytes are needed.
    Incomplete,
    /// The length prefix is over the limit.
    TooLarge,
    /// A whole frame: its body, and the bytes after it.
    Frame(Seq<u8>, Seq<u8>),
}

/// The number that four bytes stand for, read little endian.
pub open spec fn le_u32_value(s: Seq<u8>) -> int {
    s[0] + s[1] * 256 + s[2] * 65536 + s[3] * 16777216
}

/// The length a buffer's prefix announces (its first four bytes).
pub open spec fn announced_len(s: Seq<u8>) -> int {
    le_u32_value(s.take(4))
}

/// How the front of `s` reads as a frame.
pub open spec fn scan_frame(s: Seq<u8>) -> FrameScan {
    if s.len() < 4 {
        FrameScan::Incomplete
    } else if announced_len(s) > MAX_FRAME_LEN {
        FrameScan::TooLarge
    } else if s.len() < 4 + announced_len(s) {
        FrameScan::Incomplete
    } else {
        FrameScan::Frame(
            s.subrange(4, 4 + announced_len(s)),
            s.skip(4 + announced_len(s)),
        )
    }
}

/// The bytes that `encode` writes for a body: its length, truncated to 32 bits, then the body.
pub open spec fn frame_of(item: Seq<u8>) -> Seq<u8> {
    u32_le_bytes(item.len() as u32) + item
}

impl MessageCodec {
    /// Takes one frame off the front of `src`, if a whole one is there.
    ///
    /// Leaves `src` as it was when the frame is incomplete or refused.
    pub fn decode(&mut self, src: &mut bytes::BytesMut) -> (r: Result<
        Option<bytes::BytesMut>,
        CodecError,
    >)
        ensures
            match scan_frame(buffer_bytes(*old(src))) {
                FrameScan::Incomplete => {
                    &&& r matches Ok(None)
                    &&& buffer_bytes(*final(src)) == buffer_bytes(*old(src))
                },
                FrameScan::TooLarge => {
                    &&& r == Err::<Option<bytes::BytesMut>, CodecError>(
                        CodecError::MessageTooLarge,
                    )
                    &&& buffer_bytes(*final(src)) == buffer_bytes(*old(src))
                },
                FrameScan::Frame(body, rest) => {
                    &&& r matches Ok(Some(frame))
                    &&& buffer_bytes(frame) == body
                    &&& buffer_bytes(*final(src)) == rest
                },
            },
    {
        let ghost s = buffer_bytes(*src);
        if buffer_len(src) < 4 {
            return Ok(None);
        }
        let b0 = buffer_byte(src, 0) as u32;
        let b1 = buffer_byte(src, 1) as u32;
        let b2 = buffer_byte(src, 2) as u32;
        let b3 = buffer_byte(src, 3) as u32;
        let length = (b0 + b1 * 256 + b2 * 65536 + b3 * 16777216) as usize;
        assert(length == announced_len(s));
        if length > MAX_FRAME_LEN {
            return Err(CodecError::MessageTooLarge);
        }
        if buffer_len(src) < 4 + length {
            return Ok(None);
        }
        buffer_advance(src, 4);
        let data = buffer_split_to(src, length);
        assert(s.skip(4).take(length as int) =~= s.subrange(4, 4 + length));
        assert(s.skip(4).skip(length as int) =~= s.skip(4 + length));
        Ok(Some(data))
    }

    /// Appends the frame of `item` to `dst`. Never fails.
    pub fn encode(&mut self, item: Vec<u8>, dst: &mut bytes::BytesMut) -> (r: Result<
        (),
        CodecError,
    >)
        requires
            buffer_bytes(*old(dst)).len() + 4 + item@.len() <= isize::MAX,
        ensures
            r is Ok,
            buffer_bytes(*final(dst)) == buffer_bytes(*old(dst)) + frame_of(item@),
    {
        let length = item.len() as u32;
        buffer_reserve(dst, 4 + item.len());
        buffer_put_u32_le(dst, length);
        buffer_extend_from_slice(dst, item.as_slice());
        assert(buffer_bytes(*dst) =~= buffer_bytes(*old(dst)) + frame_of(item@));
        Ok(())
    }
}

/// Reading back the little-endian bytes of a number gives the number.
pub proof fn lemma_le_bytes_value(n: u32)
    ensures
        le_u32_value(u32_le_bytes(n)) == n,
{
    assert(n == (n % 256) + ((n / 256) % 256) * 256 + ((n / 65536) % 256) * 65536 + ((n
        / 16777216) % 256) * 16777216) by (bit_vector);
}

/// A frame that `encode` wrote comes back whole from `decode`, with whatever
/// followed it left in the buffer, when its body is within the limit.
pub proof fn lemma_frame_round_trip(item: Seq<u8>, rest: Seq<u8>)
    requires
        item.len() <= MAX_FRAME_LEN,
    ensures
        scan_frame(frame_of(item) + rest) == FrameScan::Frame(item, rest),
{
    let s = frame_of(item) + rest;
    lemma_le_bytes_value(item.len() as u32);
    assert(s.take(4) =~= u32_le_bytes(item.len() as u32));
    assert(announced_len(s) == item.len());
    assert(s.subrange(4, 4 + item.len() as int) =~= item);
    assert(s.skip(4 + item.len() as int) =~= rest);
}

/// A buffer shorter than the four-byte prefix never yields a frame and is left alone.
pub proof fn lemma_short_buffer_incomplete(s: Seq<u8>)
    requires
        s.len() < 4,
    ensures
        scan_frame(s) == FrameScan::Incomplete,
{
}

/// How a buffer is read, from its bytes alone: under four bytes, or under
/// four bytes plus the length the first four announce (little endian, at
/// most 1 MiB), it is incomplete and waits for more; a length over 1 MiB is
/// refused, whatever follows; otherwise the frame is the announced number of
/// bytes after the four, and the rest stays.
pub proof fn lemma_scan_cases(s: Seq<u8>)
    ensures
        s.len() < 4 ==> scan_frame(s) is Incomplete,
        s.len() >= 4 ==> {
            let n = s[0] + s[1] * 256 + s[2] * 65536 + s[3] * 16777216;
            &&& n > 1048576 <==> scan_frame(s) is TooLarge
            &&& n <= 1048576 && s.len() < 4 + n ==> scan_frame(s) is Incomplete
            &&& n <= 1048576 && s.len() >= 4 + n ==> scan_frame(s) == FrameScan::Frame(
                s.subrange(4, 4 + n),
                s.skip(4 + n),
            )
        },
{
    if s.len() >= 4 {
        assert(s.take(4)[0] == s[0] && s.take(4)[1] == s[1] && s.take(4)[2] == s[2] && s.take(4)[3]
            == s[3]);
    }
}

} // verus!
