//! The session: one connection's multiplexer and its handshake.
//!
//! A `Session` owns one frame channel exclusively and matches responses,
//! which may arrive in any order, back to the requests that caused them.
//! Every request carries a fresh correlation id; a response bearing the id
//! a caller waits for is delivered to that caller, any other response is
//! parked until its own waiter asks.  An id is parked at most once and
//! removed exactly once, so no response can reach two waiters.
//!
//! Before any operation may be issued the startup handshake must run:
//! STARTUP is answered by READY (done) or by AUTHENTICATE, which demands
//! the configured authenticator's mechanism and its token; any other
//! answer, and any mechanism disagreement, fails the connection for good.
//!
//! Correlation ids are assigned round-robin from a wrapping 16-bit
//! counter; a caller must not hold the full id space in flight at once.

use std::collections::HashMap;

use vstd::prelude::*;

use crate::authenticators::Authenticator;
use crate::body::parse_error_body;
use crate::body::parse_auth_mechanism;
use crate::body::parse_prepared_id;
use crate::body::spec_auth_mechanism;
use crate::body::spec_error_body;
use crate::body::spec_prepared_id;
use crate::codec::SpecDecode;
use crate::codec::spec_decode;
use crate::codec::spec_frame_bytes;
use crate::compression::Compression;
use crate::compression::spec_decompressed;
use crate::errors::DriverError;
use crate::frame::Flag;
use crate::frame::Frame;
use crate::frame::FrameView;
use crate::frame::Opcode;
use crate::frame::Version;
use crate::frame::spec_request_flags;
use crate::frame_channel::ChannelPoll;
use crate::frame_channel::FrameChannel;
use crate::frame_channel::ReadEvent;
use crate::query::QueryBatch;
use crate::query::QueryParams;
use crate::query::QueryValues;
use crate::requests::build_auth_response_body;
use crate::requests::build_execute_body;
use crate::requests::build_prepare_body;
use crate::requests::build_query_body;
use crate::requests::build_startup_body;
use crate::requests::spec_auth_response_body;
use crate::requests::spec_execute_body;
use crate::requests::spec_params_wf;
use crate::requests::spec_prepare_body;
use crate::requests::spec_query_body;
use crate::requests::spec_startup_body;

verus! {

broadcast use vstd::std_specs::hash::group_hash_axioms;

/// The id of a prepared statement, as the server issued it.
pub type PreparedQuery = Vec<u8>;

/// Where the handshake of a connection stands.
#[derive(Clone, Copy, Debug, PartialEq, Eq, Structural)]
pub enum HandshakeState {
    /// STARTUP not sent yet.
    Idle,
    /// STARTUP sent under this id; waiting for READY or AUTHENTICATE.
    AwaitingReady { stream: u16 },
    /// AUTH_RESPONSE sent under this id; waiting for any answer to it.
    Authenticating { stream: u16 },
    /// The handshake succeeded; operations may be issued.
    Established,
    /// The handshake failed; the connection is unusable.
    Failed,
}

/// What one demultiplexing poll answered.
pub enum SessionPoll {
    /// Nothing for this waiter yet.
    Pending,
    /// The response bearing the waiter's id.
    Ready(Frame),
    /// The operation failed: the stream ended, or the response was the
    /// server's ERROR frame.
    Failed(DriverError),
}

/// What a handshake step decided.
pub enum HandshakeStep {
    /// The connection is ready for use.
    Established,
    /// AUTH_RESPONSE was queued under this id; await its answer.
    AuthResponseSent { stream: u16 },
    /// The handshake failed for good.
    Failed(DriverError),
}

/// How a delivered frame is turned into a poll answer: an ERROR frame
/// becomes the server's error, anything else is handed over as-is.
pub open spec fn spec_delivers_view(fv: FrameView, r: SessionPoll) -> bool {
    if fv.opcode != Opcode::Error {
        r matches SessionPoll::Ready(g) && g@ == fv
    } else {
        match spec_error_body(fv.body) {
            Some((code, msg)) => r matches SessionPoll::Failed(DriverError::Server {
                code: c,
                message: m,
            }) && c == code && m@ == msg,
            None => r matches SessionPoll::Failed(DriverError::Protocol),
        }
    }
}

/// The same, of a frame value.
pub open spec fn spec_delivers(f: Frame, r: SessionPoll) -> bool {
    spec_delivers_view(f@, r)
}

/// The end-of-stream answer: the waiter learns `StreamTerminated`, the
/// parked map is untouched, and the channel is terminated for good.
pub open spec fn spec_demux_terminated(pre: Session, post: Session, r: SessionPoll) -> bool {
    &&& (r matches SessionPoll::Failed(e) && e == DriverError::StreamTerminated)
    &&& post.spec_pending() == pre.spec_pending()
    &&& post.spec_terminated()
}

/// What emitting the decoded frame `fv` does: a frame bearing the
/// waiter's id is delivered as that very frame (an ERROR frame as the
/// server's error), any other frame is parked, with exactly its decoded
/// content, under its own id.
pub open spec fn spec_demux_emit(
    pre: Session,
    post: Session,
    stream: u16,
    fv: FrameView,
    r: SessionPoll,
) -> bool {
    &&& !post.spec_terminated()
    &&& if fv.stream == stream {
        spec_delivers_view(fv, r) && post.spec_pending() == pre.spec_pending()
    } else {
        r is Pending && (exists|g: Frame|
            g@ == fv && post.spec_pending() == pre.spec_pending().insert(fv.stream, g))
    }
}

/// What one parse attempt on the grown inbound buffer `buf` guarantees,
/// mirroring the channel's own contract byte for byte: an incomplete
/// frame suspends with the bytes intact, a malformed buffer or an
/// undecodable compressed body ends the stream for every waiter, and a
/// whole frame — decompressed where flagged — is delivered or parked as
/// [`spec_demux_emit`] says, the consumed prefix gone from the buffer.
pub open spec fn spec_demux_parse(
    pre: Session,
    post: Session,
    stream: u16,
    buf: Seq<u8>,
    r: SessionPoll,
) -> bool {
    match spec_decode(buf) {
        SpecDecode::Incomplete => r is Pending && !post.spec_terminated() && post.spec_pending()
            == pre.spec_pending() && post.spec_inbound() == buf,
        SpecDecode::Malformed => spec_demux_terminated(pre, post, r),
        SpecDecode::Done { frame, consumed } => post.spec_inbound() == buf.skip(consumed)
            && if !Flag::spec_has_compression(frame.flags) {
            spec_demux_emit(pre, post, stream, frame, r)
        } else {
            match spec_decompressed(pre.spec_compression(), frame.body) {
                Some(plain) => spec_demux_emit(
                    pre,
                    post,
                    stream,
                    FrameView { body: plain, ..frame },
                    r,
                ),
                None => spec_demux_terminated(pre, post, r),
            }
        },
    }
}

/// What one poll that consulted the channel guarantees, by the event the
/// transport produced: the lifted form of [`FrameChannel::on_read`]'s
/// contract.  A terminated channel, a transport failure, a quantum-sized
/// or empty read, and a parse attempt each pin the answer, the parked
/// map, and the inbound buffer exactly.
pub open spec fn spec_demux_channel_post(
    pre: Session,
    post: Session,
    stream: u16,
    event: ReadEvent,
    r: SessionPoll,
) -> bool {
    &&& pre.spec_terminated() ==> spec_demux_terminated(pre, post, r) && post.spec_inbound()
        == pre.spec_inbound()
    &&& !pre.spec_terminated() && event is Failed ==> spec_demux_terminated(pre, post, r)
        && post.spec_inbound() == pre.spec_inbound()
    &&& !pre.spec_terminated() && (event matches ReadEvent::Data(d) && (d@.len()
        == crate::frame_channel::READING_BUFFER_SIZE || d@.len() == 0)) ==> r is Pending
        && !post.spec_terminated() && post.spec_pending() == pre.spec_pending()
        && post.spec_inbound() == pre.spec_inbound() + event->Data_0@
    &&& !pre.spec_terminated() && (event matches ReadEvent::Data(d) && d@.len()
        != crate::frame_channel::READING_BUFFER_SIZE && d@.len() != 0) ==> spec_demux_parse(
        pre,
        post,
        stream,
        pre.spec_inbound() + event->Data_0@,
        r,
    )
}

/// Everything one demultiplexing poll guarantees: the write side, the
/// handshake state and the id counter are untouched; a parked response
/// for the waiter is delivered and removed without touching the channel;
/// otherwise the channel is stepped and its frame, if any, is delivered
/// or parked as [`spec_demux_channel_post`] says.  Whatever is delivered
/// bears the waiter's own id.
pub open spec fn spec_poll_post(
    pre: Session,
    post: Session,
    stream: u16,
    event: ReadEvent,
    r: SessionPoll,
) -> bool {
    &&& pre.wf() ==> post.wf()
    &&& post.spec_state() == pre.spec_state()
    &&& post.spec_authenticator() == pre.spec_authenticator()
    &&& post.spec_outbound() == pre.spec_outbound()
    &&& post.spec_next_stream() == pre.spec_next_stream()
    &&& post.spec_compression() == pre.spec_compression()
    &&& (r matches SessionPoll::Ready(g) ==> g.stream == stream && g.opcode != Opcode::Error)
    &&& pre.spec_pending().contains_key(stream) ==> {
        &&& spec_delivers(pre.spec_pending()[stream], r)
        &&& post.spec_pending() == pre.spec_pending().remove(stream)
        &&& post.spec_inbound() == pre.spec_inbound()
        &&& post.spec_terminated() == pre.spec_terminated()
    }
    &&& !pre.spec_pending().contains_key(stream) ==> spec_demux_channel_post(
        pre,
        post,
        stream,
        event,
        r,
    )
}

/// A session: one channel, the parked out-of-order responses, the
/// authenticator for the handshake, and the id counter.
pub struct Session {
    channel: FrameChannel,
    responses: HashMap<u16, Frame>,
    authenticator: Authenticator,
    state: HandshakeState,
    next_stream: u16,
}

impl Session {
    /// The parked responses, by correlation id.
    pub closed spec fn spec_pending(&self) -> Map<u16, Frame> {
        self.responses@
    }

    /// The handshake state.
    pub closed spec fn spec_state(&self) -> HandshakeState {
        self.state
    }

    /// The authenticator the handshake uses.
    pub closed spec fn spec_authenticator(&self) -> Authenticator {
        self.authenticator
    }

    /// The bytes queued for the next flush.
    pub closed spec fn spec_outbound(&self) -> Seq<u8> {
        self.channel.spec_outbound()
    }

    /// The channel's undelivered inbound bytes.
    pub closed spec fn spec_inbound(&self) -> Seq<u8> {
        self.channel.spec_inbound()
    }

    /// Whether the channel's frame sequence has ended.
    pub closed spec fn spec_terminated(&self) -> bool {
        self.channel.spec_terminated()
    }

    /// The negotiated compression.
    pub closed spec fn spec_compression(&self) -> Compression {
        self.channel.spec_compression()
    }

    /// The id the next request will carry.
    pub closed spec fn spec_next_stream(&self) -> u16 {
        self.next_stream
    }

    /// The session's invariant: every parked response is keyed by its own
    /// correlation id, and the token fits an AUTH_RESPONSE body.
    pub open spec fn wf(&self) -> bool {
        &&& forall|k: u16|
            self.spec_pending().contains_key(k) ==> (#[trigger] self.spec_pending()[k]).stream
                == k
        &&& self.spec_authenticator().spec_token().len() <= i32::MAX
    }

    /// A fresh, not yet connected session.
    pub fn new(compressor: Compression, authenticator: Authenticator) -> (r: Session)
        requires
            authenticator.spec_token().len() <= i32::MAX,
        ensures
            r.wf(),
            r.spec_state() == HandshakeState::Idle,
            r.spec_pending() == Map::<u16, Frame>::empty(),
            r.spec_outbound() == Seq::<u8>::empty(),
            r.spec_inbound() == Seq::<u8>::empty(),
            !r.spec_terminated(),
            r.spec_compression() == compressor,
            r.spec_authenticator() == authenticator,
    {
        let responses: HashMap<u16, Frame> = HashMap::new();
        Session {
            channel: FrameChannel::new(compressor),
            responses,
            authenticator,
            state: HandshakeState::Idle,
            next_stream: 0,
        }
    }

    /// Hands over everything queued for sending; the caller writes it to
    /// the transport and flushes.
    pub fn take_outbound(&mut self) -> (r: Vec<u8>)
        ensures
            r@ == old(self).spec_outbound(),
            final(self).spec_outbound() == Seq::<u8>::empty(),
            final(self).unchanged_but_outbound(*old(self)),
    {
        self.channel.take_outbound()
    }

    /// Everything but the outbound queue is as in `other`.
    pub open spec fn unchanged_but_outbound(&self, other: Session) -> bool {
        &&& self.spec_pending() == other.spec_pending()
        &&& self.spec_state() == other.spec_state()
        &&& self.spec_authenticator() == other.spec_authenticator()
        &&& self.spec_inbound() == other.spec_inbound()
        &&& self.spec_terminated() == other.spec_terminated()
        &&& self.spec_compression() == other.spec_compression()
        &&& self.spec_next_stream() == other.spec_next_stream()
        &&& self.wf() == other.wf()
    }

    /// The next id of the wrapping counter.
    pub open spec fn spec_wrap_next(s: u16) -> u16 {
        if s == u16::MAX {
            0
        } else {
            (s + 1) as u16
        }
    }

    fn alloc_stream(&mut self) -> (r: u16)
        ensures
            r == old(self).spec_next_stream(),
            final(self).spec_next_stream() == Session::spec_wrap_next(r),
            final(self).spec_pending() == old(self).spec_pending(),
            final(self).spec_state() == old(self).spec_state(),
            final(self).spec_authenticator() == old(self).spec_authenticator(),
            final(self).spec_outbound() == old(self).spec_outbound(),
            final(self).spec_inbound() == old(self).spec_inbound(),
            final(self).spec_terminated() == old(self).spec_terminated(),
            final(self).spec_compression() == old(self).spec_compression(),
    {
        let s = self.next_stream;
        self.next_stream = if s == u16::MAX {
            0
        } else {
            s + 1
        };
        s
    }

    /// Turns a response frame into a poll answer: ERROR frames become the
    /// server's error, everything else is delivered as-is.
    fn deliver(f: Frame) -> (r: SessionPoll)
        ensures
            spec_delivers(f, r),
    {
        if f.opcode == Opcode::Error {
            match parse_error_body(&f.body) {
                Some((code, message)) => SessionPoll::Failed(
                    DriverError::Server { code, message },
                ),
                None => SessionPoll::Failed(DriverError::Protocol),
            }
        } else {
            SessionPoll::Ready(f)
        }
    }

    /// One wait cycle of a caller whose request carries `stream`.
    ///
    /// The parked responses are consulted first; a parked response for
    /// `stream` is removed and delivered without touching the channel, and
    /// without consuming the event.  Otherwise the channel absorbs the
    /// read event: a frame bearing `stream` is delivered, a frame bearing
    /// another id is parked under that id for its own waiter, the end of
    /// the stream fails the wait for good, and anything else suspends.
    pub fn poll_response(&mut self, stream: u16, event: ReadEvent) -> (r: SessionPoll)
        requires
            old(self).wf(),
        ensures
            spec_poll_post(*old(self), *final(self), stream, event, r),
    {
        match self.responses.remove(&stream) {
            Some(f) => {
                proof {
                    assert(old(self).spec_pending()[stream].stream == stream);
                }
                Session::deliver(f)
            },
            None => {
                proof {
                    assert(self.spec_pending() =~= old(self).spec_pending());
                }
                match self.channel.on_read(event) {
                    ChannelPoll::Frame(f) => {
                        let ghost gf = f;
                        if f.stream == stream {
                            let r = Session::deliver(f);
                            proof {
                                assert(gf.stream == stream && spec_delivers(gf, r)
                                    && self.spec_pending() == old(self).spec_pending());
                            }
                            r
                        } else {
                            let key = f.stream;
                            self.responses.insert(key, f);
                            proof {
                                assert(gf.stream != stream && self.spec_pending() == old(
                                    self,
                                ).spec_pending().insert(gf.stream, gf));
                            }
                            SessionPoll::Pending
                        }
                    },
                    ChannelPoll::Terminated => SessionPoll::Failed(DriverError::StreamTerminated),
                    ChannelPoll::Pending => SessionPoll::Pending,
                }
            },
        }
    }

    /// Sends STARTUP: queues the frame and moves to `AwaitingReady`.
    ///
    /// The frame carries a fresh id, no flags, and the option map naming
    /// the negotiated compression.  Returns the id to wait on.
    pub fn startup_request(&mut self) -> (r: u16)
        requires
            old(self).wf(),
            old(self).spec_state() == HandshakeState::Idle,
        ensures
            final(self).wf(),
            final(self).spec_state() == (HandshakeState::AwaitingReady { stream: r }),
            final(self).spec_outbound() == old(self).spec_outbound() + spec_frame_bytes(
                FrameView {
                    version: Version::Request,
                    flags: 0,
                    opcode: Opcode::Startup,
                    stream: r,
                    body: spec_startup_body(old(self).spec_compression().spec_name()),
                },
            ),
            final(self).spec_pending() == old(self).spec_pending(),
            final(self).spec_inbound() == old(self).spec_inbound(),
            final(self).spec_terminated() == old(self).spec_terminated(),
            final(self).spec_authenticator() == old(self).spec_authenticator(),
            final(self).spec_compression() == old(self).spec_compression(),
    {
        let stream = self.alloc_stream();
        let body = build_startup_body(self.channel.compressor());
        proof {
            crate::requests::lemma_startup_body_len(self.spec_compression());
        }
        let frame = Frame {
            version: Version::Request,
            flags: 0,
            opcode: Opcode::Startup,
            stream,
            body,
        };
        self.channel.start_send(&frame);
        self.state = HandshakeState::AwaitingReady { stream };
        stream
    }

    /// Advances the handshake on the response to STARTUP or to
    /// AUTH_RESPONSE, already demultiplexed onto this connection's id.
    ///
    /// Waiting for READY: a READY answer establishes the session; an
    /// AUTHENTICATE answer demands the configured mechanism, and queues
    /// AUTH_RESPONSE with the token only when the server's mechanism name
    /// and the configured one agree byte for byte — on a missing or
    /// different name the handshake fails without sending anything.  Any
    /// other opcode is a protocol violation and fatal.  Waiting after
    /// AUTH_RESPONSE: any answer establishes the session; its content is
    /// not validated here.
    pub fn startup_response(&mut self, frame: &Frame) -> (r: HandshakeStep)
        requires
            old(self).wf(),
            match old(self).spec_state() {
                HandshakeState::AwaitingReady { stream } => frame.stream == stream,
                HandshakeState::Authenticating { stream } => frame.stream == stream,
                _ => false,
            },
        ensures
            final(self).wf(),
            final(self).spec_pending() == old(self).spec_pending(),
            final(self).spec_inbound() == old(self).spec_inbound(),
            final(self).spec_terminated() == old(self).spec_terminated(),
            final(self).spec_authenticator() == old(self).spec_authenticator(),
            final(self).spec_compression() == old(self).spec_compression(),
            old(self).spec_state() matches (HandshakeState::Authenticating { stream }) ==> (r
                is Established && final(self).spec_state() == HandshakeState::Established && final(self).spec_outbound() == old(self).spec_outbound()),
            old(self).spec_state() matches (HandshakeState::AwaitingReady { stream }) ==> match frame
                .opcode {
                Opcode::Ready => r is Established && final(self).spec_state()
                    == HandshakeState::Established && final(self).spec_outbound() == old(
                    self,
                ).spec_outbound(),
                Opcode::Authenticate => final(self).post_authenticate(*old(self), *frame, r),
                _ => (r matches HandshakeStep::Failed(DriverError::UnexpectedOpcode { opcode })
                    && opcode == frame.opcode) && final(self).spec_state()
                    == HandshakeState::Failed && final(self).spec_outbound() == old(
                    self,
                ).spec_outbound(),
            },
    {
        match self.state {
            HandshakeState::Authenticating { stream: _ } => {
                self.state = HandshakeState::Established;
                HandshakeStep::Established
            },
            HandshakeState::AwaitingReady { stream: _ } => {
                match frame.opcode {
                    Opcode::Ready => {
                        self.state = HandshakeState::Established;
                        HandshakeStep::Established
                    },
                    Opcode::Authenticate => self.on_authenticate(frame),
                    _ => {
                        self.state = HandshakeState::Failed;
                        HandshakeStep::Failed(
                            DriverError::UnexpectedOpcode { opcode: frame.opcode },
                        )
                    },
                }
            },
            _ => {
                proof {
                    assert(false);
                }
                HandshakeStep::Failed(DriverError::Protocol)
            },
        }
    }

    /// What the AUTHENTICATE step leaves behind: failure states that send
    /// nothing, or the queued AUTH_RESPONSE under a fresh id.
    pub open spec fn post_authenticate(&self, pre: Session, frame: Frame, r: HandshakeStep) -> bool {
        match spec_auth_mechanism(frame.body@) {
            None => r matches HandshakeStep::Failed(DriverError::Protocol) && self.spec_state()
                == HandshakeState::Failed && self.spec_outbound() == pre.spec_outbound(),
            Some(mech) => match pre.spec_authenticator().spec_name_bytes() {
                None => r matches HandshakeStep::Failed(DriverError::NoAuthenticatorProvided)
                    && self.spec_state() == HandshakeState::Failed && self.spec_outbound()
                    == pre.spec_outbound(),
                Some(nb) => {
                    if nb != mech {
                        &&& r matches HandshakeStep::Failed(DriverError::AuthenticatorMismatch {
                            server,
                            client,
                        }) && server@ == mech && Some(client@) == pre.spec_authenticator(
                        ).spec_name()
                        &&& self.spec_state() == HandshakeState::Failed
                        &&& self.spec_outbound() == pre.spec_outbound()
                    } else {
                        &&& r matches (HandshakeStep::AuthResponseSent { stream }) && self.spec_state(
                        ) == (HandshakeState::Authenticating { stream }) && self.spec_outbound()
                            == pre.spec_outbound() + spec_frame_bytes(
                            FrameView {
                                version: Version::Request,
                                flags: 0,
                                opcode: Opcode::AuthResponse,
                                stream,
                                body: spec_auth_response_body(
                                    pre.spec_authenticator().spec_token(),
                                ),
                            },
                        )
                    }
                },
            },
        }
    }

    fn on_authenticate(&mut self, frame: &Frame) -> (r: HandshakeStep)
        requires
            old(self).wf(),
        ensures
            final(self).wf(),
            final(self).spec_pending() == old(self).spec_pending(),
            final(self).spec_inbound() == old(self).spec_inbound(),
            final(self).spec_terminated() == old(self).spec_terminated(),
            final(self).spec_authenticator() == old(self).spec_authenticator(),
            final(self).spec_compression() == old(self).spec_compression(),
            final(self).post_authenticate(*old(self), *frame, r),
    {
        proof {
            self.authenticator.lemma_name_bytes();
        }
        let mech = match parse_auth_mechanism(&frame.body) {
            Some(m) => m,
            None => {
                self.state = HandshakeState::Failed;
                return HandshakeStep::Failed(DriverError::Protocol);
            },
        };
        let name = match self.authenticator.get_cassandra_name() {
            Some(n) => n,
            None => {
                self.state = HandshakeState::Failed;
                return HandshakeStep::Failed(DriverError::NoAuthenticatorProvided);
            },
        };
        if !crate::body::bytes_eq(name.as_str().as_bytes(), mech.as_slice()) {
            self.state = HandshakeState::Failed;
            return HandshakeStep::Failed(
                DriverError::AuthenticatorMismatch { server: mech, client: name },
            );
        }
        let token = self.authenticator.get_auth_token();
        let body = build_auth_response_body(&token);
        let stream = self.alloc_stream();
        let frame = Frame {
            version: Version::Request,
            flags: 0,
            opcode: Opcode::AuthResponse,
            stream,
            body,
        };
        proof {
            crate::requests::lemma_auth_response_body_len(self.spec_authenticator().spec_token());
        }
        self.channel.start_send(&frame);
        self.state = HandshakeState::Authenticating { stream };
        HandshakeStep::AuthResponseSent { stream }
    }
}


impl Session {
    /// Everything a request leaves untouched: the parked responses, the
    /// handshake state, the authenticator, and the whole inbound side.
    pub open spec fn unchanged_core(&self, other: Session) -> bool {
        &&& self.spec_pending() == other.spec_pending()
        &&& self.spec_state() == other.spec_state()
        &&& self.spec_authenticator() == other.spec_authenticator()
        &&& self.spec_inbound() == other.spec_inbound()
        &&& self.spec_terminated() == other.spec_terminated()
        &&& self.spec_compression() == other.spec_compression()
    }

    /// What issuing a request ensures: a fresh id, and exactly that
    /// request's frame appended to the outbound queue.
    pub open spec fn spec_issued(
        &self,
        pre: Session,
        opcode: Opcode,
        flags: u8,
        body: Seq<u8>,
        r: u16,
    ) -> bool {
        &&& self.wf()
        &&& r == pre.spec_next_stream()
        &&& self.spec_next_stream() == Session::spec_wrap_next(r)
        &&& self.spec_outbound() == pre.spec_outbound() + spec_frame_bytes(
            FrameView { version: Version::Request, flags, opcode, stream: r, body },
        )
        &&& self.unchanged_core(pre)
    }

    /// Builds a request frame around a body, queues it, and returns its
    /// correlation id.
    fn send_request(&mut self, opcode: Opcode, flags: u8, body: Vec<u8>) -> (r: u16)
        requires
            old(self).wf(),
            body@.len() <= u32::MAX,
        ensures
            final(self).spec_issued(*old(self), opcode, flags, body@, r),
    {
        let stream = self.alloc_stream();
        let frame = Frame { version: Version::Request, flags, opcode, stream, body };
        self.channel.start_send(&frame);
        stream
    }

    /// Issues a QUERY built from the query text, explicit parameters, and
    /// the tracing and warning flags.  Returns the id to wait on.
    pub fn query_with_params_tw(
        &mut self,
        query: &str,
        query_params: QueryParams,
        with_tracing: bool,
        with_warnings: bool,
    ) -> (r: u16)
        requires
            old(self).wf(),
            old(self).spec_state() == HandshakeState::Established,
            vstd::utf8::encode_utf8(query@).len() <= i32::MAX,
            spec_params_wf(query_params),
            spec_query_body(query@, query_params).len() <= u32::MAX,
        ensures
            final(self).spec_issued(
                *old(self),
                Opcode::Query,
                spec_request_flags(with_tracing, with_warnings),
                spec_query_body(query@, query_params),
                r,
            ),
    {
        let flags = crate::frame::request_flags_byte(with_tracing, with_warnings);
        let body = build_query_body(query, &query_params);
        self.send_request(Opcode::Query, flags, body)
    }

    /// Issues a QUERY with explicit parameters and no tracing or warnings.
    pub fn query_with_params(&mut self, query: &str, query_params: QueryParams) -> (r: u16)
        requires
            old(self).wf(),
            old(self).spec_state() == HandshakeState::Established,
            vstd::utf8::encode_utf8(query@).len() <= i32::MAX,
            spec_params_wf(query_params),
            spec_query_body(query@, query_params).len() <= u32::MAX,
        ensures
            final(self).spec_issued(
                *old(self),
                Opcode::Query,
                spec_request_flags(false, false),
                spec_query_body(query@, query_params),
                r,
            ),
    {
        self.query_with_params_tw(query, query_params, false, false)
    }

    /// Issues a QUERY with default parameters and the tracing and warning
    /// flags.
    pub fn query_tw(&mut self, query: &str, with_tracing: bool, with_warnings: bool) -> (r: u16)
        requires
            old(self).wf(),
            old(self).spec_state() == HandshakeState::Established,
            vstd::utf8::encode_utf8(query@).len() <= i32::MAX,
            spec_query_body(query@, QueryParams::spec_basic()).len() <= u32::MAX,
        ensures
            final(self).spec_issued(
                *old(self),
                Opcode::Query,
                spec_request_flags(with_tracing, with_warnings),
                spec_query_body(query@, QueryParams::spec_basic()),
                r,
            ),
    {
        self.query_with_params_tw(query, QueryParams::basic(), with_tracing, with_warnings)
    }

    /// Issues a QUERY with default parameters.
    pub fn query(&mut self, query: &str) -> (r: u16)
        requires
            old(self).wf(),
            old(self).spec_state() == HandshakeState::Established,
            vstd::utf8::encode_utf8(query@).len() <= i32::MAX,
            spec_query_body(query@, QueryParams::spec_basic()).len() <= u32::MAX,
        ensures
            final(self).spec_issued(
                *old(self),
                Opcode::Query,
                spec_request_flags(false, false),
                spec_query_body(query@, QueryParams::spec_basic()),
                r,
            ),
    {
        self.query_tw(query, false, false)
    }

    /// Issues a QUERY binding values, with the tracing and warning flags.
    pub fn query_with_values_tw(
        &mut self,
        query: &str,
        values: QueryValues,
        with_tracing: bool,
        with_warnings: bool,
    ) -> (r: u16)
        requires
            old(self).wf(),
            old(self).spec_state() == HandshakeState::Established,
            vstd::utf8::encode_utf8(query@).len() <= i32::MAX,
            crate::requests::spec_values_wf(values),
            spec_query_body(query@, QueryParams::spec_with_values(values)).len() <= u32::MAX,
        ensures
            final(self).spec_issued(
                *old(self),
                Opcode::Query,
                spec_request_flags(with_tracing, with_warnings),
                spec_query_body(query@, QueryParams::spec_with_values(values)),
                r,
            ),
    {
        let params = QueryParams::with_values(values);
        self.query_with_params_tw(query, params, with_tracing, with_warnings)
    }

    /// Issues a QUERY binding values.
    pub fn query_with_values(&mut self, query: &str, values: QueryValues) -> (r: u16)
        requires
            old(self).wf(),
            old(self).spec_state() == HandshakeState::Established,
            vstd::utf8::encode_utf8(query@).len() <= i32::MAX,
            crate::requests::spec_values_wf(values),
            spec_query_body(query@, QueryParams::spec_with_values(values)).len() <= u32::MAX,
        ensures
            final(self).spec_issued(
                *old(self),
                Opcode::Query,
                spec_request_flags(false, false),
                spec_query_body(query@, QueryParams::spec_with_values(values)),
                r,
            ),
    {
        self.query_with_values_tw(query, values, false, false)
    }

    /// Issues a PREPARE for the query text, with the tracing and warning
    /// flags.  Returns the id to wait on; hand the response to
    /// [`prepared_id_of_response`].
    pub fn prepare_tw(&mut self, query: &str, with_tracing: bool, with_warnings: bool) -> (r: u16)
        requires
            old(self).wf(),
            old(self).spec_state() == HandshakeState::Established,
            vstd::utf8::encode_utf8(query@).len() <= i32::MAX,
            spec_prepare_body(query@).len() <= u32::MAX,
        ensures
            final(self).spec_issued(
                *old(self),
                Opcode::Prepare,
                spec_request_flags(with_tracing, with_warnings),
                spec_prepare_body(query@),
                r,
            ),
    {
        let flags = crate::frame::request_flags_byte(with_tracing, with_warnings);
        let body = build_prepare_body(query);
        self.send_request(Opcode::Prepare, flags, body)
    }

    /// Issues a PREPARE for the query text.
    pub fn prepare(&mut self, query: &str) -> (r: u16)
        requires
            old(self).wf(),
            old(self).spec_state() == HandshakeState::Established,
            vstd::utf8::encode_utf8(query@).len() <= i32::MAX,
            spec_prepare_body(query@).len() <= u32::MAX,
        ensures
            final(self).spec_issued(
                *old(self),
                Opcode::Prepare,
                spec_request_flags(false, false),
                spec_prepare_body(query@),
                r,
            ),
    {
        self.prepare_tw(query, false, false)
    }

    /// Issues an EXECUTE of a prepared statement with explicit parameters
    /// and the tracing and warning flags.
    pub fn exec_with_params_tw(
        &mut self,
        prepared: &PreparedQuery,
        query_parameters: QueryParams,
        with_tracing: bool,
        with_warnings: bool,
    ) -> (r: u16)
        requires
            old(self).wf(),
            old(self).spec_state() == HandshakeState::Established,
            prepared@.len() <= u16::MAX,
            spec_params_wf(query_parameters),
            spec_execute_body(prepared@, query_parameters).len() <= u32::MAX,
        ensures
            final(self).spec_issued(
                *old(self),
                Opcode::Execute,
                spec_request_flags(with_tracing, with_warnings),
                spec_execute_body(prepared@, query_parameters),
                r,
            ),
    {
        let flags = crate::frame::request_flags_byte(with_tracing, with_warnings);
        let body = build_execute_body(prepared, &query_parameters);
        self.send_request(Opcode::Execute, flags, body)
    }

    /// Issues an EXECUTE with explicit parameters.
    pub fn exec_with_params(
        &mut self,
        prepared: &PreparedQuery,
        query_parameters: QueryParams,
    ) -> (r: u16)
        requires
            old(self).wf(),
            old(self).spec_state() == HandshakeState::Established,
            prepared@.len() <= u16::MAX,
            spec_params_wf(query_parameters),
            spec_execute_body(prepared@, query_parameters).len() <= u32::MAX,
        ensures
            final(self).spec_issued(
                *old(self),
                Opcode::Execute,
                spec_request_flags(false, false),
                spec_execute_body(prepared@, query_parameters),
                r,
            ),
    {
        self.exec_with_params_tw(prepared, query_parameters, false, false)
    }

    /// Issues an EXECUTE binding values, with the tracing and warning
    /// flags.
    pub fn exec_with_values_tw(
        &mut self,
        prepared: &PreparedQuery,
        values: QueryValues,
        with_tracing: bool,
        with_warnings: bool,
    ) -> (r: u16)
        requires
            old(self).wf(),
            old(self).spec_state() == HandshakeState::Established,
            prepared@.len() <= u16::MAX,
            crate::requests::spec_values_wf(values),
            spec_execute_body(prepared@, QueryParams::spec_with_values(values)).len()
                <= u32::MAX,
        ensures
            final(self).spec_issued(
                *old(self),
                Opcode::Execute,
                spec_request_flags(with_tracing, with_warnings),
                spec_execute_body(prepared@, QueryParams::spec_with_values(values)),
                r,
            ),
    {
        let params = QueryParams::with_values(values);
        self.exec_with_params_tw(prepared, params, with_tracing, with_warnings)
    }

    /// Issues an EXECUTE binding values.
    pub fn exec_with_values(&mut self, prepared: &PreparedQuery, values: QueryValues) -> (r: u16)
        requires
            old(self).wf(),
            old(self).spec_state() == HandshakeState::Established,
            prepared@.len() <= u16::MAX,
            crate::requests::spec_values_wf(values),
            spec_execute_body(prepared@, QueryParams::spec_with_values(values)).len()
                <= u32::MAX,
        ensures
            final(self).spec_issued(
                *old(self),
                Opcode::Execute,
                spec_request_flags(false, false),
                spec_execute_body(prepared@, QueryParams::spec_with_values(values)),
                r,
            ),
    {
        self.exec_with_values_tw(prepared, values, false, false)
    }

    /// Issues an EXECUTE with default parameters and the tracing and
    /// warning flags.
    pub fn exec_tw(
        &mut self,
        prepared: &PreparedQuery,
        with_tracing: bool,
        with_warnings: bool,
    ) -> (r: u16)
        requires
            old(self).wf(),
            old(self).spec_state() == HandshakeState::Established,
            prepared@.len() <= u16::MAX,
            spec_execute_body(prepared@, QueryParams::spec_basic()).len() <= u32::MAX,
        ensures
            final(self).spec_issued(
                *old(self),
                Opcode::Execute,
                spec_request_flags(with_tracing, with_warnings),
                spec_execute_body(prepared@, QueryParams::spec_basic()),
                r,
            ),
    {
        self.exec_with_params_tw(prepared, QueryParams::basic(), with_tracing, with_warnings)
    }

    /// Issues an EXECUTE with default parameters.
    pub fn exec(&mut self, prepared: &PreparedQuery) -> (r: u16)
        requires
            old(self).wf(),
            old(self).spec_state() == HandshakeState::Established,
            prepared@.len() <= u16::MAX,
            spec_execute_body(prepared@, QueryParams::spec_basic()).len() <= u32::MAX,
        ensures
            final(self).spec_issued(
                *old(self),
                Opcode::Execute,
                spec_request_flags(false, false),
                spec_execute_body(prepared@, QueryParams::spec_basic()),
                r,
            ),
    {
        self.exec_tw(prepared, false, false)
    }

    /// Issues a BATCH with the tracing and warning flags.
    pub fn batch_with_params_tw(
        &mut self,
        batch: QueryBatch,
        with_tracing: bool,
        with_warnings: bool,
    ) -> (r: u16)
        requires
            old(self).wf(),
            old(self).spec_state() == HandshakeState::Established,
            crate::requests::spec_batch_wf(batch),
            crate::requests::spec_batch_body(batch).len() <= u32::MAX,
        ensures
            final(self).spec_issued(
                *old(self),
                Opcode::Batch,
                spec_request_flags(with_tracing, with_warnings),
                crate::requests::spec_batch_body(batch),
                r,
            ),
    {
        let flags = crate::frame::request_flags_byte(with_tracing, with_warnings);
        let body = crate::requests::build_batch_body(&batch);
        self.send_request(Opcode::Batch, flags, body)
    }

    /// Issues a BATCH.
    pub fn batch_with_params(&mut self, batch: QueryBatch) -> (r: u16)
        requires
            old(self).wf(),
            old(self).spec_state() == HandshakeState::Established,
            crate::requests::spec_batch_wf(batch),
            crate::requests::spec_batch_body(batch).len() <= u32::MAX,
        ensures
            final(self).spec_issued(
                *old(self),
                Opcode::Batch,
                spec_request_flags(false, false),
                crate::requests::spec_batch_body(batch),
                r,
            ),
    {
        self.batch_with_params_tw(batch, false, false)
    }
}

/// Extracts the prepared-statement id out of the response to PREPARE.
/// Succeeds exactly on a RESULT frame whose body is a prepared result.
pub fn prepared_id_of_response(frame: &Frame) -> (r: Result<PreparedQuery, DriverError>)
    ensures
        r is Ok <==> frame.opcode == Opcode::Result && spec_prepared_id(frame.body@) is Some,
        r matches Ok(id) ==> Some(id@) == spec_prepared_id(frame.body@),
        r is Err ==> r == Err::<PreparedQuery, DriverError>(DriverError::MissingPreparedId),
{
    if frame.opcode == Opcode::Result {
        match parse_prepared_id(&frame.body) {
            Some(id) => Ok(id),
            None => Err(DriverError::MissingPreparedId),
        }
    } else {
        Err(DriverError::MissingPreparedId)
    }
}


impl crate::get_compressor_trait::GetCompressor for Session {
    open spec fn spec_compressor(&self) -> Compression {
        self.spec_compression()
    }

    fn get_compressor(&self) -> (r: Compression) {
        self.channel.compressor()
    }
}

/// No two of these frames carry the same correlation id.
pub open spec fn spec_distinct_streams(frames: Seq<Frame>) -> bool {
    forall|i: int, j: int|
        0 <= i < j < frames.len() ==> (#[trigger] frames[i]).stream != (#[trigger] frames[j]).stream
}

/// The pending map after these frames arrived, in this order, while their
/// waiters were elsewhere: each parked under its own id.
pub open spec fn spec_park_all(m: Map<u16, Frame>, frames: Seq<Frame>) -> Map<u16, Frame>
    decreases frames.len(),
{
    if frames.len() == 0 {
        m
    } else {
        spec_park_all(m, frames.drop_last()).insert(frames.last().stream, frames.last())
    }
}

/// Parking responses with distinct correlation ids, in whatever order
/// they arrived, leaves each response parked under exactly its own id and
/// nothing else in the map: the parked map does not depend on the
/// arrival permutation.
pub proof fn lemma_park_all_each_own(frames: Seq<Frame>)
    requires
        spec_distinct_streams(frames),
    ensures
        forall|i: int|
            0 <= i < frames.len() ==> spec_park_all(Map::empty(), frames).contains_key(
                (#[trigger] frames[i]).stream,
            ) && spec_park_all(Map::empty(), frames)[frames[i].stream] == frames[i],
        forall|k: u16|
            spec_park_all(Map::empty(), frames).contains_key(k) ==> exists|i: int|
                0 <= i < frames.len() && (#[trigger] frames[i]).stream == k,
    decreases frames.len(),
{
    if frames.len() == 0 {
    } else {
        let prefix = frames.drop_last();
        let last = frames.last();
        assert(spec_distinct_streams(prefix)) by {
            assert(forall|i: int, j: int|
                0 <= i < j < prefix.len() ==> (#[trigger] prefix[i]).stream != (
                #[trigger] prefix[j]).stream) by {
                assert(forall|i: int| 0 <= i < prefix.len() ==> prefix[i] == frames[i]);
            }
        }
        lemma_park_all_each_own(prefix);
        let m = spec_park_all(Map::empty(), frames);
        let mp = spec_park_all(Map::empty(), prefix);
        assert(m == mp.insert(last.stream, last));
        assert forall|i: int| 0 <= i < frames.len() implies m.contains_key(
            (#[trigger] frames[i]).stream,
        ) && m[frames[i].stream] == frames[i] by {
            if i < frames.len() - 1 {
                assert(prefix[i] == frames[i]);
                assert(frames[i].stream != last.stream);
            } else {
                assert(frames[i] == last);
            }
        }
    }
}

/// Each waiter receives exactly the response bearing its own id, and a
/// delivered response is gone for good: after one waiter has claimed its
/// response, its id is free, every other parked response is still in
/// place, and no later claim can yield the delivered response again.
pub proof fn lemma_each_waiter_gets_own_response(frames: Seq<Frame>, i: int, j: int)
    requires
        spec_distinct_streams(frames),
        0 <= i < frames.len(),
        0 <= j < frames.len(),
        i != j,
    ensures
        spec_park_all(Map::empty(), frames)[frames[i].stream] == frames[i],
        !spec_park_all(Map::empty(), frames).remove(frames[i].stream).contains_key(
            frames[i].stream,
        ),
        spec_park_all(Map::empty(), frames).remove(frames[i].stream).contains_key(
            frames[j].stream,
        ),
        spec_park_all(Map::empty(), frames).remove(frames[i].stream)[frames[j].stream]
            == frames[j],
{
    lemma_park_all_each_own(frames);
    if i < j {
        assert(frames[i].stream != frames[j].stream);
    } else {
        assert(frames[j].stream != frames[i].stream);
    }
}

} // verus!
