//! The wire form of a frame and the proofs about it.
//!
//! A frame is laid out as
//! `[version:1][flags:1][stream:2][opcode:1][body length:4][body]`
//! with the two multi-byte header fields big-endian.  Encoding and decoding
//! are defined twice: once as spec functions that fix the byte layout
//! mathematically, and once as executable functions proved against them.
//! The lemmas at the end state that decoding inverts encoding and that no
//! strict prefix of an encoding ever decodes to a frame.

use vstd::prelude::*;

use crate::frame::Frame;
use crate::frame::FrameView;
use crate::frame::Opcode;
use crate::frame::Version;

verus! {

/// Big-endian bytes of a 16-bit integer.
pub open spec fn spec_u16_be(x: u16) -> Seq<u8> {
    seq![(x >> 8) as u8, x as u8]
}

/// Big-endian bytes of a 32-bit integer.
pub open spec fn spec_u32_be(x: u32) -> Seq<u8> {
    seq![(x >> 24) as u8, (x >> 16) as u8, (x >> 8) as u8, x as u8]
}

/// The 16-bit integer two big-endian bytes denote.
pub open spec fn spec_be_u16(b0: u8, b1: u8) -> u16 {
    ((b0 as u16) << 8) | (b1 as u16)
}

/// The 32-bit integer four big-endian bytes denote.
pub open spec fn spec_be_u32(b0: u8, b1: u8, b2: u8, b3: u8) -> u32 {
    ((b0 as u32) << 24) | ((b1 as u32) << 16) | ((b2 as u32) << 8) | (b3 as u32)
}

pub proof fn lemma_u16_be_round_trip(x: u16)
    ensures
        spec_be_u16(spec_u16_be(x)[0], spec_u16_be(x)[1]) == x,
{
    assert((((x >> 8) as u8 as u16) << 8) | (x as u8 as u16) == x) by (bit_vector);
}

pub proof fn lemma_u32_be_round_trip(x: u32)
    ensures
        spec_be_u32(spec_u32_be(x)[0], spec_u32_be(x)[1], spec_u32_be(x)[2], spec_u32_be(x)[3])
            == x,
{
    assert((((x >> 24) as u8 as u32) << 24) | (((x >> 16) as u8 as u32) << 16) | (((x >> 8) as u8
        as u32) << 8) | (x as u8 as u32) == x) by (bit_vector);
}

pub fn u16_be(x: u16) -> (r: [u8; 2])
    ensures
        r@ == spec_u16_be(x),
{
    let r = [(x >> 8) as u8, x as u8];
    proof {
        assert(r@ =~= spec_u16_be(x));
    }
    r
}

pub fn u32_be(x: u32) -> (r: [u8; 4])
    ensures
        r@ == spec_u32_be(x),
{
    let r = [(x >> 24) as u8, (x >> 16) as u8, (x >> 8) as u8, x as u8];
    proof {
        assert(r@ =~= spec_u32_be(x));
    }
    r
}

pub fn be_u16(b0: u8, b1: u8) -> (r: u16)
    ensures
        r == spec_be_u16(b0, b1),
{
    ((b0 as u16) << 8) | (b1 as u16)
}

pub fn be_u32(b0: u8, b1: u8, b2: u8, b3: u8) -> (r: u32)
    ensures
        r == spec_be_u32(b0, b1, b2, b3),
{
    ((b0 as u32) << 24) | ((b1 as u32) << 16) | ((b2 as u32) << 8) | (b3 as u32)
}

/// The number of header bytes in front of a body.
pub open spec fn spec_header_len() -> int {
    9
}

/// The bytes a frame is written as on the wire.
pub open spec fn spec_frame_bytes(f: FrameView) -> Seq<u8> {
    seq![f.version.spec_byte(), f.flags] + spec_u16_be(f.stream) + seq![f.opcode.spec_byte()]
        + spec_u32_be(f.body.len() as u32) + f.body
}

/// What a buffer holds at its front: not yet a whole frame, garbage that can
/// never become a frame, or one whole frame together with how many bytes of
/// the buffer it took.
pub ghost enum SpecDecode {
    Incomplete,
    Malformed,
    Done { frame: FrameView, consumed: int },
}

/// The frame, if any, at the front of a byte buffer.
///
/// A header is read only once all nine header bytes are present; the frame
/// only once all declared body bytes are present as well.  An unknown
/// version or opcode byte makes the buffer malformed.
pub open spec fn spec_decode(b: Seq<u8>) -> SpecDecode {
    if b.len() < spec_header_len() {
        SpecDecode::Incomplete
    } else {
        let version = Version::spec_from_byte(b[0]);
        let opcode = Opcode::spec_from_byte(b[4]);
        if version is None || opcode is None {
            SpecDecode::Malformed
        } else {
            let len = spec_be_u32(b[5], b[6], b[7], b[8]) as int;
            if b.len() < spec_header_len() + len {
                SpecDecode::Incomplete
            } else {
                SpecDecode::Done {
                    frame: FrameView {
                        version: version->Some_0,
                        flags: b[1],
                        opcode: opcode->Some_0,
                        stream: spec_be_u16(b[2], b[3]),
                        body: b.subrange(spec_header_len(), spec_header_len() + len),
                    },
                    consumed: spec_header_len() + len,
                }
            }
        }
    }
}

/// Writes a frame in its wire form.
pub fn encode_frame(f: &Frame) -> (r: Vec<u8>)
    requires
        f.wf(),
    ensures
        r@ == spec_frame_bytes(f@),
{
    let mut v: Vec<u8> = Vec::new();
    v.push(f.version.as_byte());
    v.push(f.flags);
    let stream = u16_be(f.stream);
    v.push(stream[0]);
    v.push(stream[1]);
    v.push(f.opcode.as_byte());
    let len = u32_be(f.body.len() as u32);
    v.push(len[0]);
    v.push(len[1]);
    v.push(len[2]);
    v.push(len[3]);
    v.extend_from_slice(f.body.as_slice());
    proof {
        assert(v@ =~= spec_frame_bytes(f@));
    }
    v
}

/// What decoding found at the front of a buffer.
pub enum DecodeOutcome {
    /// A whole frame, and the number of buffer bytes it occupied.
    Complete(Frame, usize),
    /// The buffer ends before the frame does.
    Incomplete,
    /// The buffer cannot be the front of any frame.
    Malformed,
}

/// Reads the frame, if any, at the front of a buffer.  The buffer is left
/// untouched; the second component of `Complete` says how many of its bytes
/// the frame took.
pub fn decode_frame(buf: &[u8]) -> (r: DecodeOutcome)
    ensures
        spec_decode(buf@) is Incomplete ==> r is Incomplete,
        spec_decode(buf@) is Malformed ==> r is Malformed,
        spec_decode(buf@) matches SpecDecode::Done { frame, consumed } ==> (r matches
            DecodeOutcome::Complete(g, c) && g@ == frame && c == consumed),
{
    if buf.len() < 9 {
        return DecodeOutcome::Incomplete;
    }
    let version = match Version::from_byte(buf[0]) {
        Some(v) => v,
        None => {
            return DecodeOutcome::Malformed;
        },
    };
    let opcode = match Opcode::from_byte(buf[4]) {
        Some(op) => op,
        None => {
            return DecodeOutcome::Malformed;
        },
    };
    let len = be_u32(buf[5], buf[6], buf[7], buf[8]) as usize;
    if buf.len() - 9 < len {
        return DecodeOutcome::Incomplete;
    }
    let end = 9 + len;
    let body = vstd::slice::slice_to_vec(vstd::slice::slice_subrange(buf, 9, end));
    let frame = Frame {
        version,
        flags: buf[1],
        opcode,
        stream: be_u16(buf[2], buf[3]),
        body,
    };
    DecodeOutcome::Complete(frame, end)
}

/// Decoding inverts encoding: the wire form of a well-formed frame decodes
/// to that very frame, consuming exactly the bytes that were written.
pub proof fn lemma_frame_round_trip(f: FrameView)
    requires
        f.body.len() <= u32::MAX,
    ensures
        spec_decode(spec_frame_bytes(f)) == (SpecDecode::Done {
            frame: f,
            consumed: spec_header_len() + f.body.len() as int,
        }),
{
    let b = spec_frame_bytes(f);
    let len32 = f.body.len() as u32;
    assert(b.len() == 9 + f.body.len());
    assert(b[0] == f.version.spec_byte());
    assert(b[1] == f.flags);
    assert(b[2] == spec_u16_be(f.stream)[0]);
    assert(b[3] == spec_u16_be(f.stream)[1]);
    assert(b[4] == f.opcode.spec_byte());
    assert(b[5] == spec_u32_be(len32)[0]);
    assert(b[6] == spec_u32_be(len32)[1]);
    assert(b[7] == spec_u32_be(len32)[2]);
    assert(b[8] == spec_u32_be(len32)[3]);
    assert(Version::spec_from_byte(f.version.spec_byte()) == Some(f.version));
    crate::frame::lemma_opcode_byte_round_trip(f.opcode);
    lemma_u16_be_round_trip(f.stream);
    lemma_u32_be_round_trip(len32);
    assert(spec_be_u32(b[5], b[6], b[7], b[8]) == len32);
    assert(b.subrange(9, 9 + f.body.len() as int) =~= f.body);
}

/// No strict prefix of a frame's wire form decodes to a frame: until every
/// declared body byte has arrived, decoding keeps answering `Incomplete`.
pub proof fn lemma_frame_prefix_incomplete(f: FrameView, n: int)
    requires
        f.body.len() <= u32::MAX,
        0 <= n < spec_frame_bytes(f).len(),
    ensures
        spec_decode(spec_frame_bytes(f).take(n)) is Incomplete,
{
    let b = spec_frame_bytes(f);
    let p = b.take(n);
    if n < 9 {
    } else {
        let len32 = f.body.len() as u32;
        assert(p[0] == b[0]);
        assert(p[4] == b[4]);
        assert(p[5] == b[5]);
        assert(p[6] == b[6]);
        assert(p[7] == b[7]);
        assert(p[8] == b[8]);
        assert(Version::spec_from_byte(f.version.spec_byte()) == Some(f.version));
        crate::frame::lemma_opcode_byte_round_trip(f.opcode);
        lemma_u32_be_round_trip(len32);
        assert(spec_be_u32(p[5], p[6], p[7], p[8]) == len32);
        assert(p.len() < 9 + len32 as int);
    }
}

} // verus!
