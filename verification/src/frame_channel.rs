//! The frame channel: one transport's bytes turned into frames.
//!
//! A `FrameChannel` owns the two buffers of a connection: bytes queued to
//! be written, and bytes read but not yet forming a whole frame.  The
//! transport itself stays with the caller; every poll cycle the caller
//! reads up to [`READING_BUFFER_SIZE`] bytes from it and hands the outcome
//! to [`FrameChannel::on_read`], which decides: buffer more, emit one
//! decoded frame, or terminate the stream for good.
//!
//! Two readings of a cycle deliberately end without a parse attempt: a read
//! of exactly the quantum (more bytes are likely in flight) and a read of
//! zero bytes.  At most one frame is extracted per cycle; a burst of
//! several whole frames is drained over the following cycles.

use vstd::prelude::*;

use crate::codec::DecodeOutcome;
use crate::codec::SpecDecode;
use crate::codec::decode_frame;
use crate::codec::spec_decode;
use crate::codec::spec_frame_bytes;
use crate::compression::Compression;
use crate::compression::decompress_body;
use crate::compression::spec_decompressed;
use crate::frame::Flag;
use crate::frame::Frame;
use crate::frame::FrameView;

verus! {

/// How many bytes one poll cycle pulls from the transport at most.
pub const READING_BUFFER_SIZE: usize = 1000;

/// The buffered, single-consumer frame pipe of one connection.
pub struct FrameChannel {
    sending_buffer: Vec<u8>,
    receiving_buffer: Vec<u8>,
    compressor: Compression,
    is_terminated: bool,
}

/// What one poll cycle's transport read produced: up to a quantum of bytes,
/// or a transport error.
pub enum ReadEvent {
    Data(Vec<u8>),
    Failed,
}

/// The channel's answer to one poll cycle.
pub enum ChannelPoll {
    /// No whole frame yet; poll again after the next read.
    Pending,
    /// One decoded frame.
    Frame(Frame),
    /// The stream is over for good: a transport error, a malformed header,
    /// or an undecodable compressed body.  Every later cycle answers the
    /// same.
    Terminated,
}

impl FrameChannel {
    /// The bytes queued for the next flush.
    pub closed spec fn spec_outbound(&self) -> Seq<u8> {
        self.sending_buffer@
    }

    /// The bytes read from the transport but not yet consumed by a frame.
    pub closed spec fn spec_inbound(&self) -> Seq<u8> {
        self.receiving_buffer@
    }

    /// The compression negotiated for this connection.
    pub closed spec fn spec_compression(&self) -> Compression {
        self.compressor
    }

    /// Whether the frame sequence has ended for good.
    pub closed spec fn spec_terminated(&self) -> bool {
        self.is_terminated
    }

    /// A fresh channel: empty buffers, not terminated.
    pub fn new(compressor: Compression) -> (r: FrameChannel)
        ensures
            r.spec_outbound() == Seq::<u8>::empty(),
            r.spec_inbound() == Seq::<u8>::empty(),
            r.spec_compression() == compressor,
            !r.spec_terminated(),
    {
        FrameChannel {
            sending_buffer: Vec::new(),
            receiving_buffer: Vec::new(),
            compressor,
            is_terminated: false,
        }
    }

    pub fn compressor(&self) -> (r: Compression)
        ensures
            r == self.spec_compression(),
    {
        self.compressor
    }

    pub fn is_terminated(&self) -> (r: bool)
        ensures
            r == self.spec_terminated(),
    {
        self.is_terminated
    }

    /// Encodes a frame and queues its bytes for the next flush.
    pub fn start_send(&mut self, frame: &Frame)
        requires
            old(self).wf_frame_fits(*frame),
        ensures
            final(self).spec_outbound() == old(self).spec_outbound() + spec_frame_bytes(frame@),
            final(self).spec_inbound() == old(self).spec_inbound(),
            final(self).spec_compression() == old(self).spec_compression(),
            final(self).spec_terminated() == old(self).spec_terminated(),
    {
        let mut bytes = crate::codec::encode_frame(frame);
        self.sending_buffer.append(&mut bytes);
    }

    /// Whether a frame can be queued: its body length fits the length
    /// field.
    pub open spec fn wf_frame_fits(&self, frame: Frame) -> bool {
        frame.wf()
    }

    /// Hands over everything queued for sending and leaves the queue
    /// empty.  The caller writes these bytes to the transport and flushes
    /// it; that is the whole of a flush.
    pub fn take_outbound(&mut self) -> (r: Vec<u8>)
        ensures
            r@ == old(self).spec_outbound(),
            final(self).spec_outbound() == Seq::<u8>::empty(),
            final(self).spec_inbound() == old(self).spec_inbound(),
            final(self).spec_compression() == old(self).spec_compression(),
            final(self).spec_terminated() == old(self).spec_terminated(),
    {
        let mut taken: Vec<u8> = Vec::new();
        core::mem::swap(&mut taken, &mut self.sending_buffer);
        taken
    }

    /// One poll cycle: absorb what the transport read and decide.
    ///
    /// A frame is emitted only once every byte of it, header and declared
    /// body alike, has arrived; a truncated buffer always answers
    /// `Pending`.  A transport error, an unparseable buffer, or a
    /// compressed body the negotiated algorithm rejects each terminate the
    /// sequence permanently.
    pub fn on_read(&mut self, event: ReadEvent) -> (r: ChannelPoll)
        ensures
            final(self).spec_outbound() == old(self).spec_outbound(),
            final(self).spec_compression() == old(self).spec_compression(),
            old(self).spec_terminated() ==> r is Terminated && final(self).spec_terminated()
                && final(self).spec_inbound() == old(self).spec_inbound(),
            !old(self).spec_terminated() && event is Failed ==> r is Terminated
                && final(self).spec_terminated() && final(self).spec_inbound() == old(
                self,
            ).spec_inbound(),
            !old(self).spec_terminated() && (event matches ReadEvent::Data(d) && (d@.len()
                == READING_BUFFER_SIZE || d@.len() == 0)) ==> r is Pending
                && !final(self).spec_terminated() && final(self).spec_inbound() == old(
                self,
            ).spec_inbound() + event->Data_0@,
            !old(self).spec_terminated() && (event matches ReadEvent::Data(d) && d@.len()
                != READING_BUFFER_SIZE && d@.len() != 0) ==> final(self).post_parse(
                old(self).spec_inbound() + event->Data_0@,
                r,
            ),
    {
        if self.is_terminated {
            return ChannelPoll::Terminated;
        }
        let mut data = match event {
            ReadEvent::Data(d) => d,
            ReadEvent::Failed => {
                self.is_terminated = true;
                return ChannelPoll::Terminated;
            },
        };
        let n = data.len();
        self.receiving_buffer.append(&mut data);
        if n == READING_BUFFER_SIZE || n == 0 {
            return ChannelPoll::Pending;
        }
        match decode_frame(self.receiving_buffer.as_slice()) {
            DecodeOutcome::Incomplete => ChannelPoll::Pending,
            DecodeOutcome::Malformed => {
                self.is_terminated = true;
                ChannelPoll::Terminated
            },
            DecodeOutcome::Complete(frame, consumed) => {
                let tail = self.receiving_buffer.split_off(consumed);
                self.receiving_buffer = tail;
                if Flag::has_compression(frame.flags) {
                    match decompress_body(self.compressor, &frame.body) {
                        Some(plain) => {
                            let decompressed = Frame {
                                version: frame.version,
                                flags: frame.flags,
                                opcode: frame.opcode,
                                stream: frame.stream,
                                body: plain,
                            };
                            ChannelPoll::Frame(decompressed)
                        },
                        None => {
                            self.is_terminated = true;
                            ChannelPoll::Terminated
                        },
                    }
                } else {
                    ChannelPoll::Frame(frame)
                }
            },
        }
    }

    /// What holds after a cycle that attempted a parse of the grown
    /// inbound buffer `buf`.
    pub open spec fn post_parse(&self, buf: Seq<u8>, r: ChannelPoll) -> bool {
        match spec_decode(buf) {
            SpecDecode::Incomplete => r is Pending && !self.spec_terminated()
                && self.spec_inbound() == buf,
            SpecDecode::Malformed => r is Terminated && self.spec_terminated(),
            SpecDecode::Done { frame, consumed } => self.spec_inbound() == buf.skip(consumed)
                && if !Flag::spec_has_compression(frame.flags) {
                r matches ChannelPoll::Frame(g) && g@ == frame && !self.spec_terminated()
            } else {
                match spec_decompressed(self.spec_compression(), frame.body) {
                    Some(plain) => r matches ChannelPoll::Frame(g) && g@ == (FrameView {
                        body: plain,
                        ..frame
                    }) && !self.spec_terminated(),
                    None => r is Terminated && self.spec_terminated(),
                }
            },
        }
    }
}


/// A truncated frame is never reported complete.  Whatever strict prefix
/// of a frame's wire form the transport has supplied, a parse attempt on
/// it leaves the channel suspended with the bytes intact: no frame is
/// emitted and the stream does not end until the declared body is whole.
pub proof fn lemma_truncated_frame_never_emitted(
    f: FrameView,
    n: int,
    c: FrameChannel,
    r: ChannelPoll,
)
    requires
        f.body.len() <= u32::MAX,
        0 <= n < spec_frame_bytes(f).len(),
        c.post_parse(spec_frame_bytes(f).take(n), r),
    ensures
        r is Pending,
        !c.spec_terminated(),
        c.spec_inbound() == spec_frame_bytes(f).take(n),
{
    crate::codec::lemma_frame_prefix_incomplete(f, n);
}

} // verus!
