//! Frames: a payload behind its length, which is four big-endian bytes.

use vstd::prelude::*;
use crate::protocol::{Message, MessageView};
use crate::wire::{
    be32, be32_at, decode_payload, decoded, encodable, encode_payload, lemma_be32_at,
    lemma_payload_roundtrip, lemma_widths, parse_payload, payload_bytes, push_bytes, WireError,
};

verus! {

/// The largest payload that a frame may carry: 64 KiB.
pub const MAX_FRAME_LEN: usize = 65536;

/// Length of the prefix that holds the payload's length.
pub const FRAME_HEADER_LEN: usize = 4;

/// The frame of `m`: the length of its payload, then the payload.
pub open spec fn frame_bytes(m: MessageView) -> Seq<u8> {
    be32(payload_bytes(m).len() as u32) + payload_bytes(m)
}

/// What a frame header says: the payload length it declares, unless that is
/// above the limit.
pub open spec fn parse_header(header: Seq<u8>) -> Result<usize, WireError> {
    if be32_at(header, 0) > MAX_FRAME_LEN {
        Err(WireError::FrameTooLarge)
    } else {
        Ok(be32_at(header, 0) as usize)
    }
}

/// Reads the frame that `b` starts with; gives the message and the number
/// of bytes that the frame takes.
pub open spec fn parse_frame(b: Seq<u8>) -> Result<(MessageView, int), WireError> {
    if b.len() < FRAME_HEADER_LEN {
        Err(WireError::Truncated)
    } else {
        match parse_header(b.subrange(0, 4)) {
            Err(e) => Err(e),
            Ok(len) => if b.len() - 4 < len {
                Err(WireError::Truncated)
            } else {
                match parse_payload(b.subrange(4, 4 + len)) {
                    Err(e) => Err(e),
                    Ok(m) => Ok((m, 4 + len)),
                }
            },
        }
    }
}

/// What a decoded frame stands for in a contract.
pub open spec fn unframed(res: Result<(Message, usize), WireError>) -> Result<
    (MessageView, int),
    WireError,
> {
    match res {
        Ok((m, used)) => Ok((m@, used as int)),
        Err(e) => Err(e),
    }
}

/// A frame is its payload behind the payload's big-endian length, and it
/// reads back as the message it was made of, whatever follows it.
pub proof fn lemma_frame_roundtrip(m: MessageView, rest: Seq<u8>)
    requires
        encodable(m),
        payload_bytes(m).len() <= MAX_FRAME_LEN,
    ensures
        frame_bytes(m).len() == 4 + payload_bytes(m).len(),
        be32_at(frame_bytes(m), 0) == frame_bytes(m).len() - 4,
        frame_bytes(m).subrange(4, frame_bytes(m).len() as int) == payload_bytes(m),
        parse_frame(frame_bytes(m) + rest) == Ok::<(MessageView, int), WireError>(
            (m, frame_bytes(m).len() as int),
        ),
{
    lemma_widths();
    let payload = payload_bytes(m);
    let n = payload.len() as u32;
    let f = frame_bytes(m);
    let b = f + rest;
    assert(f.subrange(0, 4) =~= be32(n));
    lemma_be32_at(f, 0, n);
    assert(f.subrange(4, f.len() as int) =~= payload);
    let header = b.subrange(0, 4);
    assert(header =~= be32(n));
    assert(header.subrange(0, 4) =~= header);
    lemma_be32_at(header, 0, n);
    assert(b.subrange(4, 4 + n) =~= payload + Seq::<u8>::empty());
    lemma_payload_roundtrip(m, Seq::<u8>::empty());
}

/// The codec of the session and discovery transport.
pub struct Transport;

impl Transport {
    /// Encodes `message` as one contiguous frame, or refuses it when its
    /// payload is above [`MAX_FRAME_LEN`].
    pub fn encode(message: &Message) -> (res: Result<Vec<u8>, WireError>)
        ensures
            res is Ok <==> payload_bytes(message@).len() <= MAX_FRAME_LEN,
            res matches Ok(frame) ==> frame@ == frame_bytes(message@) && parse_frame(frame@)
                == Ok::<(MessageView, int), WireError>((message@, frame@.len() as int)),
            res matches Err(e) ==> e == WireError::FrameTooLarge,
    {
        let payload = encode_payload(message);
        if payload.len() > MAX_FRAME_LEN {
            return Err(WireError::FrameTooLarge);
        }
        let n = payload.len() as u32;
        let mut frame: Vec<u8> = Vec::new();
        frame.push((n / 16777216) as u8);
        frame.push((n / 65536 % 256) as u8);
        frame.push((n / 256 % 256) as u8);
        frame.push((n % 256) as u8);
        push_bytes(&mut frame, payload.as_slice());
        proof {
            reveal(be32);
            assert(frame@ =~= frame_bytes(message@));
            lemma_frame_roundtrip(message@, Seq::<u8>::empty());
            assert(frame@ + Seq::<u8>::empty() =~= frame@);
        }
        Ok(frame)
    }

    /// Reads a frame header. A declared length above [`MAX_FRAME_LEN`] is
    /// refused here, before any buffer for the payload exists.
    pub fn decode_len(header: &[u8; 4]) -> (res: Result<usize, WireError>)
        ensures
            res == parse_header(header@),
    {
        let n = header[3] as u32 + 256 * (header[2] as u32) + 65536 * (header[1] as u32) + 16777216
            * (header[0] as u32);
        if n > MAX_FRAME_LEN as u32 {
            Err(WireError::FrameTooLarge)
        } else {
            Ok(n as usize)
        }
    }

    /// Decodes the payload of a frame.
    pub fn decode(payload: &[u8]) -> (res: Result<Message, WireError>)
        ensures
            decoded(res) == parse_payload(payload@),
    {
        decode_payload(payload)
    }

    /// Decodes the frame that `buffer` starts with, as a datagram holds it;
    /// gives the message and the number of bytes the frame takes.
    pub fn decode_frame(buffer: &[u8]) -> (res: Result<(Message, usize), WireError>)
        ensures
            unframed(res) == parse_frame(buffer@),
    {
        if buffer.len() < FRAME_HEADER_LEN {
            return Err(WireError::Truncated);
        }
        let header: [u8; 4] = [buffer[0], buffer[1], buffer[2], buffer[3]];
        assert(header@ =~= buffer@.subrange(0, 4));
        let len = match Transport::decode_len(&header) {
            Ok(len) => len,
            Err(e) => {
                return Err(e);
            },
        };
        if buffer.len() - 4 < len {
            return Err(WireError::Truncated);
        }
        let payload = vstd::slice::slice_subrange(buffer, 4, 4 + len);
        match decode_payload(payload) {
            Ok(m) => Ok((m, 4 + len)),
            Err(e) => Err(e),
        }
    }
}

} // verus!
