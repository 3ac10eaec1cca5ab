//! The frame header model: protocol version, header flags, opcodes, and the
//! `Frame` value that the rest of the crate builds, sends and receives.

use vstd::prelude::*;

verus! {

/// Direction marker of a frame.  On the wire a request carries the byte
/// `0x04` and a response the byte `0x84` (protocol version 4).
#[derive(Clone, Copy, Debug, PartialEq, Eq, Structural)]
pub enum Version {
    Request,
    Response,
}

impl Version {
    /// The byte this version is written as.
    pub open spec fn spec_byte(self) -> u8 {
        match self {
            Version::Request => 0x04,
            Version::Response => 0x84,
        }
    }

    /// The version a byte denotes, if any.
    pub open spec fn spec_from_byte(b: u8) -> Option<Version> {
        if b == 0x04 {
            Some(Version::Request)
        } else if b == 0x84 {
            Some(Version::Response)
        } else {
            None
        }
    }

    pub fn as_byte(&self) -> (r: u8)
        ensures
            r == self.spec_byte(),
    {
        match self {
            Version::Request => 0x04,
            Version::Response => 0x84,
        }
    }

    pub fn from_byte(b: u8) -> (r: Option<Version>)
        ensures
            r == Version::spec_from_byte(b),
    {
        if b == 0x04 {
            Some(Version::Request)
        } else if b == 0x84 {
            Some(Version::Response)
        } else {
            None
        }
    }
}

/// A header flag.  Flags are combined into the single flags byte of the
/// header: compression `0x01`, tracing `0x02`, custom payload `0x04`,
/// warning `0x08`; `Ignore` contributes nothing.
#[derive(Clone, Copy, Debug, PartialEq, Eq, Structural)]
pub enum Flag {
    Compression,
    Tracing,
    CustomPayload,
    Warning,
    Ignore,
}

impl Flag {
    pub open spec fn spec_byte(self) -> u8 {
        match self {
            Flag::Compression => 0x01,
            Flag::Tracing => 0x02,
            Flag::CustomPayload => 0x04,
            Flag::Warning => 0x08,
            Flag::Ignore => 0x00,
        }
    }

    pub fn as_byte(&self) -> (r: u8)
        ensures
            r == self.spec_byte(),
    {
        match self {
            Flag::Compression => 0x01,
            Flag::Tracing => 0x02,
            Flag::CustomPayload => 0x04,
            Flag::Warning => 0x08,
            Flag::Ignore => 0x00,
        }
    }

    /// Whether a flags byte has the compression bit set.
    pub open spec fn spec_has_compression(flags: u8) -> bool {
        flags & 0x01 != 0
    }

    pub fn has_compression(flags: u8) -> (r: bool)
        ensures
            r == Flag::spec_has_compression(flags),
    {
        flags & 0x01 != 0
    }
}

/// The flags byte produced by an optional tracing flag and an optional
/// warning flag; the bits are disjoint.
pub open spec fn spec_request_flags(with_tracing: bool, with_warnings: bool) -> u8 {
    (if with_tracing { 0x02u8 } else { 0x00u8 }) | (if with_warnings { 0x08u8 } else { 0x00u8 })
}

/// Computes the flags byte of a request.
pub fn request_flags_byte(with_tracing: bool, with_warnings: bool) -> (r: u8)
    ensures
        r == spec_request_flags(with_tracing, with_warnings),
{
    let a: u8 = if with_tracing {
        0x02
    } else {
        0x00
    };
    let b: u8 = if with_warnings {
        0x08
    } else {
        0x00
    };
    a | b
}

/// The flag list for a request: tracing and warning flags as asked for.
pub open spec fn spec_prepare_flags(with_tracing: bool, with_warnings: bool) -> Seq<Flag> {
    (if with_tracing { seq![Flag::Tracing] } else { Seq::<Flag>::empty() }) + (if with_warnings {
        seq![Flag::Warning]
    } else {
        Seq::<Flag>::empty()
    })
}

/// Builds the list of header flags a request should carry.
pub fn prepare_flags(with_tracing: bool, with_warnings: bool) -> (r: Vec<Flag>)
    ensures
        r@ == spec_prepare_flags(with_tracing, with_warnings),
{
    let mut flags: Vec<Flag> = Vec::new();
    if with_tracing {
        flags.push(Flag::Tracing);
    }
    if with_warnings {
        flags.push(Flag::Warning);
    }
    proof {
        assert(flags@ =~= spec_prepare_flags(with_tracing, with_warnings));
    }
    flags
}

/// Folds a list of flags into the single flags byte of the header.
pub open spec fn spec_flags_byte(flags: Seq<Flag>) -> u8
    decreases flags.len(),
{
    if flags.len() == 0 {
        0
    } else {
        spec_flags_byte(flags.drop_last()) | flags.last().spec_byte()
    }
}

pub fn flags_byte(flags: &Vec<Flag>) -> (r: u8)
    ensures
        r == spec_flags_byte(flags@),
{
    let mut acc: u8 = 0;
    let mut i: usize = 0;
    while i < flags.len()
        invariant
            i <= flags@.len(),
            acc == spec_flags_byte(flags@.take(i as int)),
        decreases flags@.len() - i,
    {
        proof {
            assert(flags@.take(i + 1).drop_last() =~= flags@.take(i as int));
            assert(flags@.take(i + 1).last() == flags@[i as int]);
        }
        acc = acc | flags[i].as_byte();
        i = i + 1;
    }
    proof {
        assert(flags@.take(flags@.len() as int) =~= flags@);
    }
    acc
}

/// An opcode names what a frame means.
#[derive(Clone, Copy, Debug, PartialEq, Eq, Structural)]
pub enum Opcode {
    Error,
    Startup,
    Ready,
    Authenticate,
    Options,
    Supported,
    Query,
    Result,
    Prepare,
    Execute,
    Register,
    Event,
    Batch,
    AuthChallenge,
    AuthResponse,
    AuthSuccess,
}

impl Opcode {
    pub open spec fn spec_byte(self) -> u8 {
        match self {
            Opcode::Error => 0x00,
            Opcode::Startup => 0x01,
            Opcode::Ready => 0x02,
            Opcode::Authenticate => 0x03,
            Opcode::Options => 0x05,
            Opcode::Supported => 0x06,
            Opcode::Query => 0x07,
            Opcode::Result => 0x08,
            Opcode::Prepare => 0x09,
            Opcode::Execute => 0x0A,
            Opcode::Register => 0x0B,
            Opcode::Event => 0x0C,
            Opcode::Batch => 0x0D,
            Opcode::AuthChallenge => 0x0E,
            Opcode::AuthResponse => 0x0F,
            Opcode::AuthSuccess => 0x10,
        }
    }

    pub open spec fn spec_from_byte(b: u8) -> Option<Opcode> {
        if b == 0x00 {
            Some(Opcode::Error)
        } else if b == 0x01 {
            Some(Opcode::Startup)
        } else if b == 0x02 {
            Some(Opcode::Ready)
        } else if b == 0x03 {
            Some(Opcode::Authenticate)
        } else if b == 0x05 {
            Some(Opcode::Options)
        } else if b == 0x06 {
            Some(Opcode::Supported)
        } else if b == 0x07 {
            Some(Opcode::Query)
        } else if b == 0x08 {
            Some(Opcode::Result)
        } else if b == 0x09 {
            Some(Opcode::Prepare)
        } else if b == 0x0A {
            Some(Opcode::Execute)
        } else if b == 0x0B {
            Some(Opcode::Register)
        } else if b == 0x0C {
            Some(Opcode::Event)
        } else if b == 0x0D {
            Some(Opcode::Batch)
        } else if b == 0x0E {
            Some(Opcode::AuthChallenge)
        } else if b == 0x0F {
            Some(Opcode::AuthResponse)
        } else if b == 0x10 {
            Some(Opcode::AuthSuccess)
        } else {
            None
        }
    }

    pub fn as_byte(&self) -> (r: u8)
        ensures
            r == self.spec_byte(),
    {
        match self {
            Opcode::Error => 0x00,
            Opcode::Startup => 0x01,
            Opcode::Ready => 0x02,
            Opcode::Authenticate => 0x03,
            Opcode::Options => 0x05,
            Opcode::Supported => 0x06,
            Opcode::Query => 0x07,
            Opcode::Result => 0x08,
            Opcode::Prepare => 0x09,
            Opcode::Execute => 0x0A,
            Opcode::Register => 0x0B,
            Opcode::Event => 0x0C,
            Opcode::Batch => 0x0D,
            Opcode::AuthChallenge => 0x0E,
            Opcode::AuthResponse => 0x0F,
            Opcode::AuthSuccess => 0x10,
        }
    }

    pub fn from_byte(b: u8) -> (r: Option<Opcode>)
        ensures
            r == Opcode::spec_from_byte(b),
    {
        if b == 0x00 {
            Some(Opcode::Error)
        } else if b == 0x01 {
            Some(Opcode::Startup)
        } else if b == 0x02 {
            Some(Opcode::Ready)
        } else if b == 0x03 {
            Some(Opcode::Authenticate)
        } else if b == 0x05 {
            Some(Opcode::Options)
        } else if b == 0x06 {
            Some(Opcode::Supported)
        } else if b == 0x07 {
            Some(Opcode::Query)
        } else if b == 0x08 {
            Some(Opcode::Result)
        } else if b == 0x09 {
            Some(Opcode::Prepare)
        } else if b == 0x0A {
            Some(Opcode::Execute)
        } else if b == 0x0B {
            Some(Opcode::Register)
        } else if b == 0x0C {
            Some(Opcode::Event)
        } else if b == 0x0D {
            Some(Opcode::Batch)
        } else if b == 0x0E {
            Some(Opcode::AuthChallenge)
        } else if b == 0x0F {
            Some(Opcode::AuthResponse)
        } else if b == 0x10 {
            Some(Opcode::AuthSuccess)
        } else {
            None
        }
    }
}

/// A round trip through the byte form brings an opcode back unchanged.
pub proof fn lemma_opcode_byte_round_trip(op: Opcode)
    ensures
        Opcode::spec_from_byte(op.spec_byte()) == Some(op),
{
}

/// One complete protocol message: the header fields and the raw body bytes.
///
/// The body is kept exactly as it stands on the wire after decompression;
/// any tracing identifier or warning list a server put in front of a
/// response payload is still at the front of `body`.
#[derive(Debug)]
pub struct Frame {
    pub version: Version,
    pub flags: u8,
    pub opcode: Opcode,
    pub stream: u16,
    pub body: Vec<u8>,
}

/// The mathematical value of a frame: its header fields and body bytes.
pub ghost struct FrameView {
    pub version: Version,
    pub flags: u8,
    pub opcode: Opcode,
    pub stream: u16,
    pub body: Seq<u8>,
}

impl View for Frame {
    type V = FrameView;

    open spec fn view(&self) -> FrameView {
        FrameView {
            version: self.version,
            flags: self.flags,
            opcode: self.opcode,
            stream: self.stream,
            body: self.body@,
        }
    }
}

impl Frame {
    /// A frame can be written on the wire only if its body length fits the
    /// four-byte length field.
    pub open spec fn wf(self) -> bool {
        self.body@.len() <= u32::MAX
    }
}

} // verus!
