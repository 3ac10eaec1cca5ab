use cdrs_async::Frame;
use cdrs_async::Opcode;
use cdrs_async::Version;
use cdrs_async::codec::DecodeOutcome;
use cdrs_async::codec::decode_frame;
use cdrs_async::codec::encode_frame;

use cassandra_proto::compression::Compressor;

fn sample_frame() -> Frame {
    Frame {
        version: Version::Request,
        flags: 0x02,
        opcode: Opcode::Query,
        stream: 0x0102,
        body: vec![0xDE, 0xAD, 0xBE, 0xEF, 0x00],
    }
}

#[test]
fn encode_exact_bytes() {
    let bytes = encode_frame(&sample_frame());
    assert_eq!(
        bytes,
        vec![0x04, 0x02, 0x01, 0x02, 0x07, 0x00, 0x00, 0x00, 0x05, 0xDE, 0xAD, 0xBE, 0xEF, 0x00]
    );
}

#[test]
fn decode_inverts_encode() {
    let frame = sample_frame();
    let bytes = encode_frame(&frame);
    match decode_frame(&bytes) {
        DecodeOutcome::Complete(out, consumed) => {
            assert_eq!(out.version, frame.version);
            assert_eq!(out.flags, frame.flags);
            assert_eq!(out.opcode, frame.opcode);
            assert_eq!(out.stream, frame.stream);
            assert_eq!(out.body, frame.body);
            assert_eq!(consumed, bytes.len());
        },
        _ => panic!("a whole encoded frame must decode"),
    }
}

#[test]
fn decode_round_trip_response_frame() {
    let frame = Frame {
        version: Version::Response,
        flags: 0x08,
        opcode: Opcode::Result,
        stream: 0xFFFF,
        body: vec![],
    };
    let bytes = encode_frame(&frame);
    match decode_frame(&bytes) {
        DecodeOutcome::Complete(out, consumed) => {
            assert_eq!(out.version, Version::Response);
            assert_eq!(out.flags, 0x08);
            assert_eq!(out.opcode, Opcode::Result);
            assert_eq!(out.stream, 0xFFFF);
            assert_eq!(out.body, Vec::<u8>::new());
            assert_eq!(consumed, 9);
        },
        _ => panic!("a whole encoded frame must decode"),
    }
}

#[test]
fn every_strict_prefix_is_incomplete() {
    let bytes = encode_frame(&sample_frame());
    for n in 0..bytes.len() {
        match decode_frame(&bytes[..n]) {
            DecodeOutcome::Incomplete => {},
            _ => panic!("a strict prefix must stay incomplete"),
        }
    }
}

#[test]
fn unknown_version_is_malformed() {
    let mut bytes = encode_frame(&sample_frame());
    bytes[0] = 0x42;
    match decode_frame(&bytes) {
        DecodeOutcome::Malformed => {},
        _ => panic!("an unknown version byte must be refused"),
    }
}

#[test]
fn unknown_opcode_is_malformed() {
    let mut bytes = encode_frame(&sample_frame());
    bytes[4] = 0x7F;
    match decode_frame(&bytes) {
        DecodeOutcome::Malformed => {},
        _ => panic!("an unknown opcode byte must be refused"),
    }
}

struct PlainCompressor;

#[derive(Debug)]
struct NoCompressorError;

impl std::fmt::Display for NoCompressorError {
    fn fmt(&self, f: &mut std::fmt::Formatter<'_>) -> std::fmt::Result {
        f.write_str("no compression")
    }
}

impl std::error::Error for NoCompressorError {}

impl Compressor for PlainCompressor {
    type CompressorError = NoCompressorError;

    fn encode(&self, bytes: Vec<u8>) -> Result<Vec<u8>, NoCompressorError> {
        Ok(bytes)
    }

    fn decode(&self, bytes: Vec<u8>) -> Result<Vec<u8>, NoCompressorError> {
        Ok(bytes)
    }

    fn into_string(&self) -> Option<String> {
        None
    }
}

#[test]
fn encoding_agrees_with_protocol_crate_parser() {
    let frame = Frame {
        version: Version::Request,
        flags: 0x00,
        opcode: Opcode::Query,
        stream: 0x0102,
        body: vec![0xDE, 0xAD, 0xBE, 0xEF, 0x00],
    };
    let bytes = encode_frame(&frame);
    let mut cursor = std::io::Cursor::new(bytes.as_slice());
    let parsed = cassandra_proto::frame::parser_async::parse_frame_async(
        &mut cursor,
        &PlainCompressor,
    )
    .expect("parse must not fail")
    .expect("a whole frame must be parsed");
    assert_eq!(parsed.version, cassandra_proto::frame::Version::Request);
    assert_eq!(parsed.opcode, cassandra_proto::frame::Opcode::Query);
    assert_eq!(parsed.stream, 0x0102);
    assert_eq!(parsed.body, frame.body);
}
