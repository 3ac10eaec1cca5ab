use cdrs_async::Frame;
use cdrs_async::Opcode;
use cdrs_async::Version;
use cdrs_async::codec::encode_frame;
use cdrs_async::compression::Compression;
use cdrs_async::frame_channel::ChannelPoll;
use cdrs_async::frame_channel::FrameChannel;
use cdrs_async::frame_channel::ReadEvent;

fn response_frame(stream: u16, body: Vec<u8>) -> Frame {
    Frame { version: Version::Response, flags: 0, opcode: Opcode::Result, stream, body }
}

#[test]
fn truncated_chunks_never_emit_a_frame() {
    let bytes = encode_frame(&response_frame(7, vec![1, 2, 3, 4, 5, 6, 7, 8]));
    let mut channel = FrameChannel::new(Compression::Plain);
    // Feed every byte but the last, one small chunk at a time: the
    // channel must keep answering Pending.
    for chunk in bytes[..bytes.len() - 1].chunks(3) {
        match channel.on_read(ReadEvent::Data(chunk.to_vec())) {
            ChannelPoll::Pending => {},
            _ => panic!("an incomplete frame must never be emitted"),
        }
    }
    match channel.on_read(ReadEvent::Data(vec![bytes[bytes.len() - 1]])) {
        ChannelPoll::Frame(f) => {
            assert_eq!(f.stream, 7);
            assert_eq!(f.body, vec![1, 2, 3, 4, 5, 6, 7, 8]);
        },
        _ => panic!("the completed frame must be emitted"),
    }
}

#[test]
fn quantum_sized_read_suspends_without_parsing() {
    // A frame whose whole encoding is exactly the read quantum.
    let frame = response_frame(1, vec![0xAA; 991]);
    let bytes = encode_frame(&frame);
    assert_eq!(bytes.len(), 1000);
    let mut channel = FrameChannel::new(Compression::Plain);
    match channel.on_read(ReadEvent::Data(bytes)) {
        ChannelPoll::Pending => {},
        _ => panic!("a quantum-sized read must suspend without parsing"),
    }
    // The next, smaller read triggers the parse and yields the frame.
    let second = encode_frame(&response_frame(2, vec![1]));
    match channel.on_read(ReadEvent::Data(second)) {
        ChannelPoll::Frame(f) => assert_eq!(f.stream, 1),
        _ => panic!("the buffered frame must be emitted"),
    }
    // One frame per cycle: the second frame waits for the next cycle.
    match channel.on_read(ReadEvent::Data(vec![])) {
        ChannelPoll::Pending => {},
        _ => panic!("a zero read must suspend without parsing"),
    }
}

#[test]
fn zero_read_suspends_without_parsing() {
    let bytes = encode_frame(&response_frame(9, vec![5]));
    let mut channel = FrameChannel::new(Compression::Plain);
    match channel.on_read(ReadEvent::Data(bytes)) {
        ChannelPoll::Frame(f) => assert_eq!(f.stream, 9),
        _ => panic!("the frame must be emitted"),
    }
    match channel.on_read(ReadEvent::Data(vec![])) {
        ChannelPoll::Pending => {},
        _ => panic!("a zero read must suspend"),
    }
}

#[test]
fn transport_failure_terminates_for_good() {
    let mut channel = FrameChannel::new(Compression::Plain);
    match channel.on_read(ReadEvent::Failed) {
        ChannelPoll::Terminated => {},
        _ => panic!("a transport error must terminate the stream"),
    }
    assert!(channel.is_terminated());
    let bytes = encode_frame(&response_frame(1, vec![]));
    match channel.on_read(ReadEvent::Data(bytes)) {
        ChannelPoll::Terminated => {},
        _ => panic!("a terminated stream must stay terminated"),
    }
}

#[test]
fn malformed_header_terminates() {
    let mut channel = FrameChannel::new(Compression::Plain);
    let garbage = vec![0x42u8, 0, 0, 1, 2, 0, 0, 0, 0];
    match channel.on_read(ReadEvent::Data(garbage)) {
        ChannelPoll::Terminated => {},
        _ => panic!("an unknown version byte must terminate the stream"),
    }
    assert!(channel.is_terminated());
}

#[test]
fn lz4_body_is_decompressed() {
    let plain = b"a body long enough for lz4 to chew on, twice over: \
                  a body long enough for lz4 to chew on"
        .to_vec();
    let compressed = lz4_compress::compress(&plain);
    assert_ne!(compressed, plain);
    let frame = Frame {
        version: Version::Response,
        flags: 0x01,
        opcode: Opcode::Result,
        stream: 3,
        body: compressed,
    };
    let bytes = encode_frame(&frame);
    let mut channel = FrameChannel::new(Compression::Lz4);
    match channel.on_read(ReadEvent::Data(bytes)) {
        ChannelPoll::Frame(f) => {
            assert_eq!(f.stream, 3);
            assert_eq!(f.body, plain);
        },
        _ => panic!("the compressed frame must be emitted decompressed"),
    }
}

#[test]
fn snappy_body_is_decompressed() {
    let plain = b"snappy round trip payload".to_vec();
    let compressed = snap::raw::Encoder::new().compress_vec(&plain).expect("compress");
    assert_ne!(compressed, plain);
    let frame = Frame {
        version: Version::Response,
        flags: 0x01,
        opcode: Opcode::Result,
        stream: 4,
        body: compressed,
    };
    let bytes = encode_frame(&frame);
    let mut channel = FrameChannel::new(Compression::Snappy);
    match channel.on_read(ReadEvent::Data(bytes)) {
        ChannelPoll::Frame(f) => {
            assert_eq!(f.stream, 4);
            assert_eq!(f.body, plain);
        },
        _ => panic!("the compressed frame must be emitted decompressed"),
    }
}

#[test]
fn undecodable_compressed_body_terminates() {
    let frame = Frame {
        version: Version::Response,
        flags: 0x01,
        opcode: Opcode::Result,
        stream: 5,
        body: vec![0xFF, 0xFE, 0xFD],
    };
    let bytes = encode_frame(&frame);
    let mut channel = FrameChannel::new(Compression::Lz4);
    match channel.on_read(ReadEvent::Data(bytes)) {
        ChannelPoll::Terminated => {},
        _ => panic!("an undecodable compressed body must terminate the stream"),
    }
}

#[test]
fn leftover_bytes_prefix_the_next_frame() {
    let first = encode_frame(&response_frame(1, vec![7]));
    let second = encode_frame(&response_frame(2, vec![8]));
    let mut all = first.clone();
    all.extend_from_slice(&second[..4]);
    let mut channel = FrameChannel::new(Compression::Plain);
    match channel.on_read(ReadEvent::Data(all)) {
        ChannelPoll::Frame(f) => assert_eq!(f.stream, 1),
        _ => panic!("the first frame must be emitted"),
    }
    match channel.on_read(ReadEvent::Data(second[4..].to_vec())) {
        ChannelPoll::Frame(f) => {
            assert_eq!(f.stream, 2);
            assert_eq!(f.body, vec![8]);
        },
        _ => panic!("the leftover bytes must complete the second frame"),
    }
}
