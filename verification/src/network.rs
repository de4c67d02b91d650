//! Length-prefixed framing: every unit on the wire is a 4-byte big-endian
//! length followed by exactly that many payload bytes.
//!
//! The socket reads and writes themselves live outside the library; these
//! functions produce and parse the framed bytes.

use vstd::prelude::*;
use crate::error::push_bytes;

verus! {

/// Number of bytes in the length prefix of every frame.
pub const FRAME_PREFIX_SIZE: usize = 4;

/// The big-endian bytes of a 32-bit length, most significant byte first.
pub open spec fn spec_u32_to_be_bytes(n: u32) -> Seq<u8> {
    seq![
        (n / 0x1000000) as u8,
        ((n / 0x10000) % 0x100) as u8,
        ((n / 0x100) % 0x100) as u8,
        (n % 0x100) as u8,
    ]
}

/// The 32-bit value of four big-endian bytes.
pub open spec fn spec_u32_from_be_bytes(b: Seq<u8>) -> int
    recommends
        b.len() == 4,
{
    b[0] * 0x1000000 + b[1] * 0x10000 + b[2] * 0x100 + b[3]
}

/// Reading back the four bytes of a length yields the length.
pub proof fn lemma_u32_be_roundtrip(n: u32)
    ensures
        spec_u32_from_be_bytes(spec_u32_to_be_bytes(n)) == n,
{
    let b = spec_u32_to_be_bytes(n);
    assert(b[0] == (n / 0x1000000) as u8 && b[1] == ((n / 0x10000) % 0x100) as u8 && b[2] == ((n
        / 0x100) % 0x100) as u8 && b[3] == (n % 0x100) as u8);
    assert((n / 0x1000000) * 0x1000000 + ((n / 0x10000) % 0x100) * 0x10000 + ((n / 0x100) % 0x100)
        * 0x100 + n % 0x100 == n) by (bit_vector);
}

/// A complete frame: the payload's length, then the payload.
pub open spec fn spec_frame(payload: Seq<u8>) -> Seq<u8>
    recommends
        payload.len() <= u32::MAX,
{
    spec_u32_to_be_bytes(payload.len() as u32) + payload
}

/// One parse step over a buffer: the first frame's payload and how many
/// bytes it occupied, or `None` when the buffer holds no complete frame.
pub open spec fn spec_parse_frame(b: Seq<u8>) -> Option<(Seq<u8>, int)> {
    if b.len() < 4 {
        None
    } else {
        let l = spec_u32_from_be_bytes(b.subrange(0, 4));
        if 4 + l <= b.len() {
            Some((b.subrange(4, 4 + l), 4 + l))
        } else {
            None
        }
    }
}

/// Framing round-trip: parsing a framed payload, whatever follows it,
/// yields that payload back and consumes exactly the frame.
pub proof fn lemma_frame_roundtrip(s: Seq<u8>, rest: Seq<u8>)
    requires
        s.len() <= u32::MAX,
    ensures
        spec_parse_frame(spec_frame(s) + rest) matches Some(pc) && pc.0 == s && pc.1 == 4
            + s.len(),
{
    let b = spec_frame(s) + rest;
    assert(b.subrange(0, 4) =~= spec_u32_to_be_bytes(s.len() as u32));
    lemma_u32_be_roundtrip(s.len() as u32);
    assert(spec_u32_from_be_bytes(b.subrange(0, 4)) == s.len());
    assert(b.subrange(4, 4 + s.len() as int) =~= s);
}

/// Encodes the length prefix of a frame.
pub fn u32_to_be_bytes(n: u32) -> (r: Vec<u8>)
    ensures
        r@ == spec_u32_to_be_bytes(n),
{
    let mut v: Vec<u8> = Vec::new();
    v.push((n >> 24) as u8);
    v.push(((n >> 16) & 0xff) as u8);
    v.push(((n >> 8) & 0xff) as u8);
    v.push((n & 0xff) as u8);
    proof {
        assert((n >> 24) as u8 == (n / 0x1000000) as u8) by (bit_vector);
        assert(((n >> 16) & 0xff) as u8 == ((n / 0x10000) % 0x100) as u8) by (bit_vector);
        assert(((n >> 8) & 0xff) as u8 == ((n / 0x100) % 0x100) as u8) by (bit_vector);
        assert((n & 0xff) as u8 == (n % 0x100) as u8) by (bit_vector);
        assert(v@ =~= spec_u32_to_be_bytes(n));
    }
    v
}

/// Decodes the length prefix of a frame.
pub fn u32_from_be_bytes(b: &[u8]) -> (r: u32)
    requires
        b@.len() == 4,
    ensures
        r == spec_u32_from_be_bytes(b@),
{
    let r = ((b[0] as u32) << 24) | ((b[1] as u32) << 16) | ((b[2] as u32) << 8) | (b[3] as u32);
    proof {
        let b0 = b@[0];
        let b1 = b@[1];
        let b2 = b@[2];
        let b3 = b@[3];
        assert(((b0 as u32) << 24) | ((b1 as u32) << 16) | ((b2 as u32) << 8) | (b3 as u32) == (
        b0 as u32) * 0x1000000 + (b1 as u32) * 0x10000 + (b2 as u32) * 0x100 + (
        b3 as u32)) by (bit_vector);
    }
    r
}

/// Wraps a payload in a frame, ready to be written to the wire.
pub fn frame_data(payload: &[u8]) -> (r: Vec<u8>)
    requires
        payload@.len() <= u32::MAX,
    ensures
        r@ == spec_frame(payload@),
{
    let mut v = u32_to_be_bytes(payload.len() as u32);
    push_bytes(&mut v, payload);
    v
}

/// Takes the first complete frame off the front of a buffer, returning its
/// payload and the number of bytes consumed.
pub fn take_frame(buf: &[u8]) -> (r: Option<(Vec<u8>, usize)>)
    ensures
        match r {
            Some((p, c)) => spec_parse_frame(buf@) == Some((p@, c as int)),
            None => spec_parse_frame(buf@) is None,
        },
{
    if buf.len() < 4 {
        return None;
    }
    let prefix = vstd::slice::slice_subrange(buf, 0, 4);
    let len = u32_from_be_bytes(prefix) as usize;
    if len > buf.len() - 4 {
        return None;
    }
    let payload = vstd::slice::slice_to_vec(vstd::slice::slice_subrange(buf, 4, 4 + len));
    proof {
        assert(payload@ == buf@.subrange(4, 4 + len as int));
    }
    Some((payload, 4 + len))
}

} // verus!
