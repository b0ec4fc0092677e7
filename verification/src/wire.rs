//! Byte layout of a message payload.
//!
//! A payload starts with the variant's index as four little-endian bytes and
//! goes on with the variant's fields in declaration order. Integers are
//! fixed-width little-endian, a boolean is one byte that is 0 or 1, and a
//! string is its UTF-8 length as eight little-endian bytes followed by its
//! UTF-8 bytes. Bytes after the last field are not looked at.

use vstd::prelude::*;
use vstd::utf8::*;
use crate::protocol::{Message, MessageView};

verus! {

/// Why bytes were not accepted as a frame or as a payload.
#[derive(Debug, Clone, Copy, PartialEq, Eq, Structural)]
pub enum WireError {
    /// The declared payload length is above [`MAX_FRAME_LEN`].
    FrameTooLarge,
    /// The bytes end before the value does.
    Truncated,
    /// The variant index names no message.
    UnknownVariant,
    /// A boolean byte is neither 0 nor 1.
    InvalidBool,
    /// A string's bytes are not UTF-8.
    InvalidUtf8,
}

pub open spec fn u16_of(b0: u8, b1: u8) -> u16 {
    (b0 + 256 * b1) as u16
}

pub open spec fn u32_of(b0: u8, b1: u8, b2: u8, b3: u8) -> u32 {
    (b0 + 256 * b1 + 65536 * b2 + 16777216 * b3) as u32
}

/// The two little-endian bytes of `x`.
#[verifier::opaque]
pub open spec fn le16(x: u16) -> Seq<u8> {
    seq![(x % 256) as u8, (x / 256) as u8]
}

/// The four little-endian bytes of `x`.
#[verifier::opaque]
pub open spec fn le32(x: u32) -> Seq<u8> {
    seq![
        (x % 256) as u8,
        (x / 256 % 256) as u8,
        (x / 65536 % 256) as u8,
        (x / 16777216) as u8,
    ]
}

/// The eight little-endian bytes of `x`.
pub open spec fn le64(x: u64) -> Seq<u8> {
    le32((x % 0x1_0000_0000) as u32) + le32((x / 0x1_0000_0000) as u32)
}

/// The four big-endian bytes of `x`.
#[verifier::opaque]
pub open spec fn be32(x: u32) -> Seq<u8> {
    seq![
        (x / 16777216) as u8,
        (x / 65536 % 256) as u8,
        (x / 256 % 256) as u8,
        (x % 256) as u8,
    ]
}

/// The little-endian `u16` at offset `at` of `b`.
pub open spec fn le16_at(b: Seq<u8>, at: int) -> u16 {
    u16_of(b[at], b[at + 1])
}

/// The little-endian `u32` at offset `at` of `b`.
pub open spec fn le32_at(b: Seq<u8>, at: int) -> u32 {
    u32_of(b[at], b[at + 1], b[at + 2], b[at + 3])
}

/// The little-endian `u64` at offset `at` of `b`.
pub open spec fn le64_at(b: Seq<u8>, at: int) -> u64 {
    (le32_at(b, at) + 0x1_0000_0000 * le32_at(b, at + 4)) as u64
}

/// The big-endian `u32` at offset `at` of `b`.
pub open spec fn be32_at(b: Seq<u8>, at: int) -> u32 {
    u32_of(b[at + 3], b[at + 2], b[at + 1], b[at])
}

/// The two's complement pattern of `x`.
pub open spec fn i32_bits(x: i32) -> u32 {
    if x >= 0 {
        x as u32
    } else {
        (x + 0x1_0000_0000) as u32
    }
}

/// The signed value whose two's complement pattern is `u`.
pub open spec fn bits_i32(u: u32) -> i32 {
    if u < 0x8000_0000 {
        u as i32
    } else {
        (u - 0x1_0000_0000) as i32
    }
}

pub open spec fn bool_byte(v: bool) -> u8 {
    if v {
        1
    } else {
        0
    }
}

/// A string on the wire: the length of its UTF-8 form, then that form.
pub open spec fn text_bytes(s: Seq<char>) -> Seq<u8> {
    le64(encode_utf8(s).len() as u64) + encode_utf8(s)
}

/// The payload of a message.
pub open spec fn payload_bytes(m: MessageView) -> Seq<u8> {
    match m {
        MessageView::Discovery { id, name, port } => le32(0) + text_bytes(id) + text_bytes(name)
            + le16(port),
        MessageView::MouseMove { x, y } => le32(1) + le32(i32_bits(x)) + le32(i32_bits(y)),
        MessageView::MouseClick { button, state } => le32(2) + seq![button, bool_byte(state)],
        MessageView::KeyPress { key, state } => le32(3) + le32(key) + seq![bool_byte(state)],
        MessageView::ConnectRequest => le32(4),
        MessageView::ConnectResponse { success } => le32(5) + seq![bool_byte(success)],
        MessageView::Disconnect => le32(6),
    }
}

/// A message whose strings are short enough for their length prefix. Every
/// [`Message`] in memory is one.
pub open spec fn encodable(m: MessageView) -> bool {
    match m {
        MessageView::Discovery { id, name, port } => encode_utf8(id).len() <= u64::MAX
            && encode_utf8(name).len() <= u64::MAX,
        _ => true,
    }
}

/// Reads a boolean byte.
pub open spec fn parse_bool(v: u8) -> Result<bool, WireError> {
    if v == 0 {
        Ok(false)
    } else if v == 1 {
        Ok(true)
    } else {
        Err(WireError::InvalidBool)
    }
}

/// Reads the string that starts at offset `at` of `b`; gives the string and
/// the offset behind it.
#[verifier::opaque]
pub open spec fn parse_text(b: Seq<u8>, at: int) -> Result<(Seq<char>, int), WireError> {
    if b.len() < at + 8 {
        Err(WireError::Truncated)
    } else if b.len() - (at + 8) < le64_at(b, at) {
        Err(WireError::Truncated)
    } else {
        let end = at + 8 + le64_at(b, at);
        if valid_utf8(b.subrange(at + 8, end)) {
            Ok((decode_utf8(b.subrange(at + 8, end)), end))
        } else {
            Err(WireError::InvalidUtf8)
        }
    }
}

/// Reads the fields of an announce, which start at offset 4.
pub open spec fn parse_announce(b: Seq<u8>) -> Result<MessageView, WireError> {
    match parse_text(b, 4) {
        Err(e) => Err(e),
        Ok((id, after_id)) => match parse_text(b, after_id) {
            Err(e) => Err(e),
            Ok((name, after_name)) => if b.len() < after_name + 2 {
                Err(WireError::Truncated)
            } else {
                Ok(MessageView::Discovery { id, name, port: le16_at(b, after_name) })
            },
        },
    }
}

/// Reads a payload: the message that `b` starts with, or why there is none.
pub open spec fn parse_payload(b: Seq<u8>) -> Result<MessageView, WireError> {
    if b.len() < 4 {
        Err(WireError::Truncated)
    } else if le32_at(b, 0) == 0 {
        parse_announce(b)
    } else if le32_at(b, 0) == 1 {
        if b.len() < 12 {
            Err(WireError::Truncated)
        } else {
            Ok(MessageView::MouseMove { x: bits_i32(le32_at(b, 4)), y: bits_i32(le32_at(b, 8)) })
        }
    } else if le32_at(b, 0) == 2 {
        if b.len() < 6 {
            Err(WireError::Truncated)
        } else {
            match parse_bool(b[5]) {
                Ok(state) => Ok(MessageView::MouseClick { button: b[4], state }),
                Err(e) => Err(e),
            }
        }
    } else if le32_at(b, 0) == 3 {
        if b.len() < 9 {
            Err(WireError::Truncated)
        } else {
            match parse_bool(b[8]) {
                Ok(state) => Ok(MessageView::KeyPress { key: le32_at(b, 4), state }),
                Err(e) => Err(e),
            }
        }
    } else if le32_at(b, 0) == 4 {
        Ok(MessageView::ConnectRequest)
    } else if le32_at(b, 0) == 5 {
        if b.len() < 5 {
            Err(WireError::Truncated)
        } else {
            match parse_bool(b[4]) {
                Ok(success) => Ok(MessageView::ConnectResponse { success }),
                Err(e) => Err(e),
            }
        }
    } else if le32_at(b, 0) == 6 {
        Ok(MessageView::Disconnect)
    } else {
        Err(WireError::UnknownVariant)
    }
}

/// The lengths of the fixed-width encodings.
pub proof fn lemma_widths()
    ensures
        forall|x: u16| #[trigger] le16(x).len() == 2,
        forall|x: u32| #[trigger] le32(x).len() == 4,
        forall|x: u64| #[trigger] le64(x).len() == 8,
        forall|x: u32| #[trigger] be32(x).len() == 4,
        forall|s: Seq<char>| #[trigger] text_bytes(s).len() == 8 + encode_utf8(s).len(),
{
    reveal(le16);
    reveal(le32);
    reveal(be32);
}

/// Reading at the place where `le16(x)` stands gives `x`.
pub proof fn lemma_le16_at(b: Seq<u8>, at: int, x: u16)
    requires
        0 <= at,
        at + 2 <= b.len(),
        b.subrange(at, at + 2) == le16(x),
    ensures
        le16_at(b, at) == x,
{
    reveal(le16);
    let w = b.subrange(at, at + 2);
    assert(b[at] == w[0]);
    assert(b[at + 1] == w[1]);
}

/// Reading at the place where `le32(x)` stands gives `x`.
pub proof fn lemma_le32_at(b: Seq<u8>, at: int, x: u32)
    requires
        0 <= at,
        at + 4 <= b.len(),
        b.subrange(at, at + 4) == le32(x),
    ensures
        le32_at(b, at) == x,
{
    reveal(le32);
    let w = b.subrange(at, at + 4);
    assert(b[at] == w[0]);
    assert(b[at + 1] == w[1]);
    assert(b[at + 2] == w[2]);
    assert(b[at + 3] == w[3]);
}

/// Reading at the place where `le64(x)` stands gives `x`.
pub proof fn lemma_le64_at(b: Seq<u8>, at: int, x: u64)
    requires
        0 <= at,
        at + 8 <= b.len(),
        b.subrange(at, at + 8) == le64(x),
    ensures
        le64_at(b, at) == x,
{
    lemma_widths();
    let lo = (x % 0x1_0000_0000) as u32;
    let hi = (x / 0x1_0000_0000) as u32;
    let w = b.subrange(at, at + 8);
    assert(b.subrange(at, at + 4) =~= w.subrange(0, 4));
    assert(w.subrange(0, 4) =~= le32(lo));
    assert(b.subrange(at + 4, at + 8) =~= w.subrange(4, 8));
    assert(w.subrange(4, 8) =~= le32(hi));
    lemma_le32_at(b, at, lo);
    lemma_le32_at(b, at + 4, hi);
}

/// Reading at the place where `be32(x)` stands gives `x`.
pub proof fn lemma_be32_at(b: Seq<u8>, at: int, x: u32)
    requires
        0 <= at,
        at + 4 <= b.len(),
        b.subrange(at, at + 4) == be32(x),
    ensures
        be32_at(b, at) == x,
{
    reveal(be32);
    let w = b.subrange(at, at + 4);
    assert(b[at] == w[0]);
    assert(b[at + 1] == w[1]);
    assert(b[at + 2] == w[2]);
    assert(b[at + 3] == w[3]);
}

/// The signed value of the pattern of `x` is `x`.
pub proof fn lemma_i32_bits(x: i32)
    ensures
        bits_i32(i32_bits(x)) == x,
{
}

/// Reading at the place where the string `s` stands gives `s` and the
/// offset behind it.
pub proof fn lemma_parse_text(b: Seq<u8>, at: int, s: Seq<char>)
    requires
        0 <= at,
        encode_utf8(s).len() <= u64::MAX,
        at + 8 + encode_utf8(s).len() <= b.len(),
        b.subrange(at, at + 8 + encode_utf8(s).len()) == text_bytes(s),
    ensures
        parse_text(b, at) == Ok::<(Seq<char>, int), WireError>(
            (s, at + 8 + encode_utf8(s).len()),
        ),
{
    reveal(parse_text);
    lemma_widths();
    let body = encode_utf8(s);
    let n = body.len() as u64;
    let w = b.subrange(at, at + 8 + body.len());
    assert(b.subrange(at, at + 8) =~= w.subrange(0, 8));
    assert(w.subrange(0, 8) =~= le64(n));
    lemma_le64_at(b, at, n);
    assert(b.subrange(at + 8, at + 8 + n) =~= w.subrange(8, 8 + n));
    assert(w.subrange(8, 8 + n) =~= body);
    encode_utf8_valid_utf8(s);
    encode_utf8_decode_utf8(s);
}

proof fn lemma_roundtrip_announce(id: Seq<char>, name: Seq<char>, port: u16, rest: Seq<u8>)
    requires
        encode_utf8(id).len() <= u64::MAX,
        encode_utf8(name).len() <= u64::MAX,
    ensures
        parse_payload(le32(0) + text_bytes(id) + text_bytes(name) + le16(port) + rest) == Ok::<
            MessageView,
            WireError,
        >(MessageView::Discovery { id, name, port }),
{
    lemma_widths();
    let b = le32(0) + text_bytes(id) + text_bytes(name) + le16(port) + rest;
    let n1: int = 4 + text_bytes(id).len() as int;
    let n2: int = n1 + text_bytes(name).len() as int;
    assert(le32_at(b, 0) == 0) by {
        assert(b.subrange(0, 4) =~= le32(0));
        lemma_le32_at(b, 0, 0);
    }
    assert(parse_text(b, 4) == Ok::<(Seq<char>, int), WireError>((id, n1))) by {
        assert(b.subrange(4, n1) =~= text_bytes(id));
        lemma_parse_text(b, 4, id);
    }
    assert(parse_text(b, n1) == Ok::<(Seq<char>, int), WireError>((name, n2))) by {
        assert(b.subrange(n1, n2) =~= text_bytes(name));
        lemma_parse_text(b, n1, name);
    }
    assert(le16_at(b, n2) == port) by {
        assert(b.subrange(n2, n2 + 2) =~= le16(port));
        lemma_le16_at(b, n2, port);
    }
}

proof fn lemma_roundtrip_motion(x: i32, y: i32, rest: Seq<u8>)
    ensures
        parse_payload(le32(1) + le32(i32_bits(x)) + le32(i32_bits(y)) + rest) == Ok::<
            MessageView,
            WireError,
        >(MessageView::MouseMove { x, y }),
{
    lemma_widths();
    let b = le32(1) + le32(i32_bits(x)) + le32(i32_bits(y)) + rest;
    assert(le32_at(b, 0) == 1) by {
        assert(b.subrange(0, 4) =~= le32(1));
        lemma_le32_at(b, 0, 1);
    }
    assert(le32_at(b, 4) == i32_bits(x)) by {
        assert(b.subrange(4, 8) =~= le32(i32_bits(x)));
        lemma_le32_at(b, 4, i32_bits(x));
    }
    assert(le32_at(b, 8) == i32_bits(y)) by {
        assert(b.subrange(8, 12) =~= le32(i32_bits(y)));
        lemma_le32_at(b, 8, i32_bits(y));
    }
    lemma_i32_bits(x);
    lemma_i32_bits(y);
}

proof fn lemma_roundtrip_key(key: u32, state: bool, rest: Seq<u8>)
    ensures
        parse_payload(le32(3) + le32(key) + seq![bool_byte(state)] + rest) == Ok::<
            MessageView,
            WireError,
        >(MessageView::KeyPress { key, state }),
{
    lemma_widths();
    let tail = seq![bool_byte(state)];
    let b = le32(3) + le32(key) + tail + rest;
    assert(le32_at(b, 0) == 3) by {
        assert(b.subrange(0, 4) =~= le32(3));
        lemma_le32_at(b, 0, 3);
    }
    assert(le32_at(b, 4) == key) by {
        assert(b.subrange(4, 8) =~= le32(key));
        lemma_le32_at(b, 4, key);
    }
    assert(b[8] == tail[0]);
}

proof fn lemma_roundtrip_tagged(tag: u32, tail: Seq<u8>)
    ensures
        le32_at(le32(tag) + tail, 0) == tag,
        (le32(tag) + tail).len() == 4 + tail.len(),
        forall|i: int| 0 <= i < tail.len() ==> (le32(tag) + tail)[4 + i] == tail[i],
{
    lemma_widths();
    let b = le32(tag) + tail;
    assert(b.subrange(0, 4) =~= le32(tag));
    lemma_le32_at(b, 0, tag);
}

/// A payload that is read right after it was written gives the message
/// back: bytes that start with the payload of `m` parse as `m`.
pub proof fn lemma_payload_roundtrip(m: MessageView, rest: Seq<u8>)
    requires
        encodable(m),
    ensures
        parse_payload(payload_bytes(m) + rest) == Ok::<MessageView, WireError>(m),
{
    let b = payload_bytes(m) + rest;
    match m {
        MessageView::Discovery { id, name, port } => {
            lemma_roundtrip_announce(id, name, port, rest);
        },
        MessageView::MouseMove { x, y } => {
            lemma_roundtrip_motion(x, y, rest);
        },
        MessageView::MouseClick { button, state } => {
            let tail = seq![button, bool_byte(state)] + rest;
            assert(b =~= le32(2) + tail);
            lemma_roundtrip_tagged(2, tail);
            assert(b[4] == tail[0]);
            assert(b[5] == tail[1]);
        },
        MessageView::KeyPress { key, state } => {
            lemma_roundtrip_key(key, state, rest);
        },
        MessageView::ConnectRequest => {
            lemma_roundtrip_tagged(4, rest);
        },
        MessageView::ConnectResponse { success } => {
            let tail = seq![bool_byte(success)] + rest;
            assert(b =~= le32(5) + tail);
            lemma_roundtrip_tagged(5, tail);
            assert(b[4] == tail[0]);
        },
        MessageView::Disconnect => {
            lemma_roundtrip_tagged(6, rest);
        },
    }
}

proof fn lemma_bytes_of_u32(b0: u8, b1: u8, b2: u8, b3: u8)
    ensures
        le32(u32_of(b0, b1, b2, b3)) == seq![b0, b1, b2, b3],
{
    reveal(le32);
    let v = u32_of(b0, b1, b2, b3);
    let r1 = b1 + 256 * b2 + 65536 * b3;
    let r2 = b2 + 256 * b3;
    assert(v == b0 + 256 * r1);
    assert(v % 256 == b0 && v / 256 == r1);
    assert(r1 == b1 + 256 * r2);
    assert(r1 % 256 == b1 && r1 / 256 == r2);
    assert(v / 65536 == r2);
    assert(r2 % 256 == b2 && r2 / 256 == b3);
    assert(v / 16777216 == b3);
    assert(le32(v) =~= seq![b0, b1, b2, b3]);
}

proof fn lemma_halves_of_u64(lo: u32, hi: u32)
    ensures
        ((lo + 0x1_0000_0000 * hi) % 0x1_0000_0000) == lo,
        ((lo + 0x1_0000_0000 * hi) / 0x1_0000_0000) == hi,
        lo + 0x1_0000_0000 * hi <= u64::MAX,
{
}

/// What was read from a place is what stands there, for the fixed-width
/// encodings.
pub proof fn lemma_read_is_written(b: Seq<u8>, at: int)
    requires
        0 <= at,
    ensures
        at + 2 <= b.len() ==> b.subrange(at, at + 2) == le16(le16_at(b, at)),
        at + 4 <= b.len() ==> b.subrange(at, at + 4) == le32(le32_at(b, at)),
        at + 8 <= b.len() ==> b.subrange(at, at + 8) == le64(le64_at(b, at)),
{
    if at + 2 <= b.len() {
        assert(b.subrange(at, at + 2) =~= le16(le16_at(b, at))) by {
            reveal(le16);
        }
    }
    if at + 4 <= b.len() {
        lemma_bytes_of_u32(b[at], b[at + 1], b[at + 2], b[at + 3]);
        assert(b.subrange(at, at + 4) =~= seq![b[at], b[at + 1], b[at + 2], b[at + 3]]);
    }
    if at + 8 <= b.len() {
        let lo = le32_at(b, at);
        let hi = le32_at(b, at + 4);
        lemma_halves_of_u64(lo, hi);
        lemma_bytes_of_u32(b[at + 4], b[at + 5], b[at + 6], b[at + 7]);
        assert(b.subrange(at + 4, at + 8) =~= seq![b[at + 4], b[at + 5], b[at + 6], b[at + 7]]);
        assert(b.subrange(at, at + 8) =~= b.subrange(at, at + 4) + b.subrange(at + 4, at + 8));
    }
}

proof fn lemma_text_is_written(b: Seq<u8>, at: int)
    requires
        0 <= at,
        parse_text(b, at) is Ok,
    ensures
        ({
            let (s, end) = parse_text(b, at)->Ok_0;
            &&& end == at + text_bytes(s).len()
            &&& end <= b.len()
            &&& encode_utf8(s).len() <= u64::MAX
            &&& b.subrange(at, end) == text_bytes(s)
        }),
{
    reveal(parse_text);
    lemma_widths();
    lemma_read_is_written(b, at);
    let n = le64_at(b, at);
    let end = at + 8 + n;
    let body = b.subrange(at + 8, end);
    decode_utf8_encode_utf8(body);
    assert(b.subrange(at, end) =~= b.subrange(at, at + 8) + body);
}

/// Only what was written is read: bytes that parse as `m` start with the
/// payload of `m`.
pub proof fn lemma_parsed_was_written(b: Seq<u8>, m: MessageView)
    requires
        parse_payload(b) == Ok::<MessageView, WireError>(m),
    ensures
        encodable(m),
        payload_bytes(m).len() <= b.len(),
        b.subrange(0, payload_bytes(m).len() as int) == payload_bytes(m),
{
    lemma_widths();
    lemma_read_is_written(b, 0);
    let tag = b.subrange(0, 4);
    match m {
        MessageView::Discovery { id, name, port } => {
            lemma_text_is_written(b, 4);
            let n1 = parse_text(b, 4)->Ok_0.1;
            lemma_text_is_written(b, n1);
            let n2 = parse_text(b, n1)->Ok_0.1;
            lemma_read_is_written(b, n2);
            assert(b.subrange(0, n2 + 2) =~= tag + b.subrange(4, n1) + b.subrange(n1, n2)
                + b.subrange(n2, n2 + 2));
        },
        MessageView::MouseMove { x, y } => {
            lemma_read_is_written(b, 4);
            lemma_read_is_written(b, 8);
            assert(i32_bits(bits_i32(le32_at(b, 4))) == le32_at(b, 4));
            assert(i32_bits(bits_i32(le32_at(b, 8))) == le32_at(b, 8));
            assert(b.subrange(0, 12) =~= tag + b.subrange(4, 8) + b.subrange(8, 12));
        },
        MessageView::MouseClick { button, state } => {
            assert(b.subrange(0, 6) =~= tag + seq![button, bool_byte(state)]);
        },
        MessageView::KeyPress { key, state } => {
            lemma_read_is_written(b, 4);
            assert(b.subrange(0, 9) =~= tag + b.subrange(4, 8) + seq![bool_byte(state)]);
        },
        MessageView::ConnectRequest => {
            assert(b.subrange(0, 4) =~= tag);
        },
        MessageView::ConnectResponse { success } => {
            assert(b.subrange(0, 5) =~= tag + seq![bool_byte(success)]);
        },
        MessageView::Disconnect => {
            assert(b.subrange(0, 4) =~= tag);
        },
    }
}

/// `String::from_utf8` of std, with its error dropped: it accepts exactly
/// the byte strings that are UTF-8, and the string it gives has those bytes
/// as its UTF-8 form.
#[verifier::external_body]
fn text_from_utf8(bytes: Vec<u8>) -> (res: Option<String>)
    ensures
        res is Some <==> valid_utf8(bytes@),
        res matches Some(s) ==> encode_utf8(s@) == bytes@,
{
    String::from_utf8(bytes).ok()
}

fn push_le16(out: &mut Vec<u8>, x: u16)
    ensures
        final(out)@ == old(out)@ + le16(x),
{
    reveal(le16);
    out.push((x % 256) as u8);
    out.push((x / 256) as u8);
    assert(out@ =~= old(out)@ + le16(x));
}

fn push_le32(out: &mut Vec<u8>, x: u32)
    ensures
        final(out)@ == old(out)@ + le32(x),
{
    reveal(le32);
    out.push((x % 256) as u8);
    out.push((x / 256 % 256) as u8);
    out.push((x / 65536 % 256) as u8);
    out.push((x / 16777216) as u8);
    assert(out@ =~= old(out)@ + le32(x));
}

fn push_le64(out: &mut Vec<u8>, x: u64)
    ensures
        final(out)@ == old(out)@ + le64(x),
{
    push_le32(out, (x % 0x1_0000_0000) as u32);
    push_le32(out, (x / 0x1_0000_0000) as u32);
    assert(out@ =~= old(out)@ + le64(x));
}

/// Appends `src` to `out`.
pub fn push_bytes(out: &mut Vec<u8>, src: &[u8])
    ensures
        final(out)@ == old(out)@ + src@,
{
    let mut i: usize = 0;
    while i < src.len()
        invariant
            i <= src@.len(),
            out@ == old(out)@ + src@.subrange(0, i as int),
        decreases src@.len() - i,
    {
        out.push(src[i]);
        i = i + 1;
        assert(out@ =~= old(out)@ + src@.subrange(0, i as int));
    }
    assert(src@.subrange(0, i as int) =~= src@);
}

fn push_text(out: &mut Vec<u8>, s: &str)
    ensures
        final(out)@ == old(out)@ + text_bytes(s@),
        encode_utf8(s@).len() <= u64::MAX,
{
    let body = s.as_bytes();
    push_le64(out, body.len() as u64);
    push_bytes(out, body);
    assert(out@ =~= old(out)@ + text_bytes(s@));
}

fn push_bool(out: &mut Vec<u8>, v: bool)
    ensures
        final(out)@ == old(out)@ + seq![bool_byte(v)],
{
    out.push(if v { 1u8 } else { 0u8 });
    assert(out@ =~= old(out)@ + seq![bool_byte(v)]);
}

fn i32_to_bits(x: i32) -> (u: u32)
    ensures
        u == i32_bits(x),
{
    if x >= 0 {
        x as u32
    } else {
        (x + 2147483647 + 1) as u32 + 2147483648u32
    }
}

fn bits_to_i32(u: u32) -> (x: i32)
    ensures
        x == bits_i32(u),
{
    if u < 2147483648u32 {
        u as i32
    } else {
        (u - 2147483648u32) as i32 - 2147483647 - 1
    }
}

/// Writes the payload of `m`.
pub fn encode_payload(m: &Message) -> (out: Vec<u8>)
    ensures
        out@ == payload_bytes(m@),
        encodable(m@),
{
    let mut out: Vec<u8> = Vec::new();
    match m {
        Message::Discovery { id, name, port } => {
            push_le32(&mut out, 0);
            push_text(&mut out, id.as_str());
            push_text(&mut out, name.as_str());
            push_le16(&mut out, *port);
        },
        Message::MouseMove { x, y } => {
            push_le32(&mut out, 1);
            push_le32(&mut out, i32_to_bits(*x));
            push_le32(&mut out, i32_to_bits(*y));
        },
        Message::MouseClick { button, state } => {
            push_le32(&mut out, 2);
            out.push(*button);
            push_bool(&mut out, *state);
        },
        Message::KeyPress { key, state } => {
            push_le32(&mut out, 3);
            push_le32(&mut out, *key);
            push_bool(&mut out, *state);
        },
        Message::ConnectRequest => {
            push_le32(&mut out, 4);
        },
        Message::ConnectResponse { success } => {
            push_le32(&mut out, 5);
            push_bool(&mut out, *success);
        },
        Message::Disconnect => {
            push_le32(&mut out, 6);
        },
    }
    assert(out@ =~= payload_bytes(m@));
    out
}

fn read_le16(b: &[u8], at: usize) -> (x: u16)
    requires
        at + 2 <= b@.len(),
    ensures
        x == le16_at(b@, at as int),
{
    b[at] as u16 + 256 * (b[at + 1] as u16)
}

fn read_le32(b: &[u8], at: usize) -> (x: u32)
    requires
        at + 4 <= b@.len(),
    ensures
        x == le32_at(b@, at as int),
{
    b[at] as u32 + 256 * (b[at + 1] as u32) + 65536 * (b[at + 2] as u32) + 16777216 * (b[at
        + 3] as u32)
}

fn read_le64(b: &[u8], at: usize) -> (x: u64)
    requires
        at + 8 <= b@.len(),
    ensures
        x == le64_at(b@, at as int),
{
    assert(at + 8 <= b.len());
    let lo = read_le32(b, at);
    let hi = read_le32(b, at + 4);
    lo as u64 + 4294967296 * (hi as u64)
}

fn read_bool(v: u8) -> (res: Result<bool, WireError>)
    ensures
        res == parse_bool(v),
{
    if v == 0 {
        Ok(false)
    } else if v == 1 {
        Ok(true)
    } else {
        Err(WireError::InvalidBool)
    }
}

/// What a decoded string stands for in a contract.
pub open spec fn text_view(res: Result<(String, usize), WireError>) -> Result<
    (Seq<char>, int),
    WireError,
> {
    match res {
        Ok((s, end)) => Ok((s@, end as int)),
        Err(e) => Err(e),
    }
}

fn read_text(b: &[u8], at: usize) -> (res: Result<(String, usize), WireError>)
    requires
        at <= b@.len(),
    ensures
        text_view(res) == parse_text(b@, at as int),
{
    reveal(parse_text);
    if b.len() - at < 8 {
        return Err(WireError::Truncated);
    }
    let n = read_le64(b, at);
    let room = b.len() - at - 8;
    if (room as u64) < n {
        return Err(WireError::Truncated);
    }
    let end = at + 8 + n as usize;
    let body = vstd::slice::slice_to_vec(vstd::slice::slice_subrange(b, at + 8, end));
    match text_from_utf8(body) {
        Some(s) => {
            proof {
                encode_utf8_decode_utf8(s@);
            }
            Ok((s, end))
        },
        None => Err(WireError::InvalidUtf8),
    }
}

/// What a decoded message stands for in a contract.
pub open spec fn decoded(res: Result<Message, WireError>) -> Result<MessageView, WireError> {
    match res {
        Ok(m) => Ok(m@),
        Err(e) => Err(e),
    }
}

fn read_announce(b: &[u8]) -> (res: Result<Message, WireError>)
    requires
        4 <= b@.len(),
    ensures
        decoded(res) == parse_announce(b@),
{
    let (id, after_id) = match read_text(b, 4) {
        Ok(v) => v,
        Err(e) => {
            return Err(e);
        },
    };
    proof {
        reveal(parse_text);
    }
    let (name, after_name) = match read_text(b, after_id) {
        Ok(v) => v,
        Err(e) => {
            return Err(e);
        },
    };
    if b.len() - after_name < 2 {
        return Err(WireError::Truncated);
    }
    let port = read_le16(b, after_name);
    Ok(Message::Discovery { id, name, port })
}

/// Reads the message that `b` starts with. Bytes behind it are ignored.
pub fn decode_payload(b: &[u8]) -> (res: Result<Message, WireError>)
    ensures
        decoded(res) == parse_payload(b@),
{
    if b.len() < 4 {
        return Err(WireError::Truncated);
    }
    let tag = read_le32(b, 0);
    if tag == 0 {
        read_announce(b)
    } else if tag == 1 {
        if b.len() < 12 {
            return Err(WireError::Truncated);
        }
        let x = bits_to_i32(read_le32(b, 4));
        let y = bits_to_i32(read_le32(b, 8));
        Ok(Message::MouseMove { x, y })
    } else if tag == 2 {
        if b.len() < 6 {
            return Err(WireError::Truncated);
        }
        match read_bool(b[5]) {
            Ok(state) => Ok(Message::MouseClick { button: b[4], state }),
            Err(e) => Err(e),
        }
    } else if tag == 3 {
        if b.len() < 9 {
            return Err(WireError::Truncated);
        }
        match read_bool(b[8]) {
            Ok(state) => Ok(Message::KeyPress { key: read_le32(b, 4), state }),
            Err(e) => Err(e),
        }
    } else if tag == 4 {
        Ok(Message::ConnectRequest)
    } else if tag == 5 {
        if b.len() < 5 {
            return Err(WireError::Truncated);
        }
        match read_bool(b[4]) {
            Ok(success) => Ok(Message::ConnectResponse { success }),
            Err(e) => Err(e),
        }
    } else if tag == 6 {
        Ok(Message::Disconnect)
    } else {
        Err(WireError::UnknownVariant)
    }
}

} // verus!
