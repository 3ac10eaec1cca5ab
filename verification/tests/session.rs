use cdrs_async::Authenticator;
use cdrs_async::DriverError;
use cdrs_async::Frame;
use cdrs_async::NoneAuthenticator;
use cdrs_async::Opcode;
use cdrs_async::PasswordAuthenticator;
use cdrs_async::Session;
use cdrs_async::Version;
use cdrs_async::codec::DecodeOutcome;
use cdrs_async::codec::decode_frame;
use cdrs_async::codec::encode_frame;
use cdrs_async::compression::Compression;
use cdrs_async::frame_channel::ReadEvent;
use cdrs_async::session::HandshakeStep;
use cdrs_async::session::SessionPoll;
use cdrs_async::session::prepared_id_of_response;
use cdrs_async::get_compressor_trait::GetCompressor;
use cdrs_async::frame::flags_byte;
use cdrs_async::prepare_flags;

fn response(stream: u16, opcode: Opcode, body: Vec<u8>) -> Vec<u8> {
    encode_frame(&Frame { version: Version::Response, flags: 0, opcode, stream, body })
}

/// The body of an AUTHENTICATE frame naming a mechanism.
fn authenticate_body(mechanism: &str) -> Vec<u8> {
    let mut body = vec![0, mechanism.len() as u8];
    body.extend_from_slice(mechanism.as_bytes());
    body
}

fn connect_plain() -> Session {
    let auth: Authenticator = (NoneAuthenticator {}).into();
    let mut session = Session::new(Compression::Plain, auth);
    let s1 = session.startup_request();
    let startup_bytes = session.take_outbound();
    // The STARTUP frame announces no compression: one option pair.
    let mut expected = vec![0x04, 0x00, (s1 >> 8) as u8, s1 as u8, 0x01, 0, 0, 0, 22, 0, 1];
    expected.extend_from_slice(&[0, 11]);
    expected.extend_from_slice(b"CQL_VERSION");
    expected.extend_from_slice(&[0, 5]);
    expected.extend_from_slice(b"3.0.0");
    assert_eq!(startup_bytes, expected);
    let ready = response(s1, Opcode::Ready, vec![]);
    let frame = match session.poll_response(s1, ReadEvent::Data(ready)) {
        SessionPoll::Ready(f) => f,
        _ => panic!("READY must be delivered to the startup waiter"),
    };
    match session.startup_response(&frame) {
        HandshakeStep::Established => {},
        _ => panic!("READY must establish the session"),
    }
    session
}

#[test]
fn handshake_ready_yields_usable_session() {
    let mut session = connect_plain();
    // The session is usable at once: a query can be issued.
    let _stream = session.query("SELECT cql_version FROM system.local");
}

#[test]
fn handshake_mismatched_mechanism_fails_without_auth_response() {
    let auth: Authenticator = PasswordAuthenticator::new("user", "pass").into();
    let mut session = Session::new(Compression::Plain, auth);
    let s1 = session.startup_request();
    let _ = session.take_outbound();
    let challenge = response(s1, Opcode::Authenticate, authenticate_body("org.example.Other"));
    let frame = match session.poll_response(s1, ReadEvent::Data(challenge)) {
        SessionPoll::Ready(f) => f,
        _ => panic!("AUTHENTICATE must be delivered to the startup waiter"),
    };
    match session.startup_response(&frame) {
        HandshakeStep::Failed(DriverError::AuthenticatorMismatch { server, client }) => {
            assert_eq!(server, b"org.example.Other".to_vec());
            assert_eq!(client, "org.apache.cassandra.auth.PasswordAuthenticator");
        },
        _ => panic!("a mechanism mismatch must fail the connect attempt"),
    }
    // Nothing was queued: AUTH_RESPONSE is never sent on a mismatch.
    assert_eq!(session.take_outbound(), Vec::<u8>::new());
}

#[test]
fn handshake_without_authenticator_fails_closed() {
    let auth: Authenticator = (NoneAuthenticator {}).into();
    let mut session = Session::new(Compression::Plain, auth);
    let s1 = session.startup_request();
    let _ = session.take_outbound();
    let challenge = response(
        s1,
        Opcode::Authenticate,
        authenticate_body("org.apache.cassandra.auth.PasswordAuthenticator"),
    );
    let frame = match session.poll_response(s1, ReadEvent::Data(challenge)) {
        SessionPoll::Ready(f) => f,
        _ => panic!("AUTHENTICATE must be delivered to the startup waiter"),
    };
    match session.startup_response(&frame) {
        HandshakeStep::Failed(DriverError::NoAuthenticatorProvided) => {},
        _ => panic!("a server demanding authentication must fail a client without one"),
    }
    assert_eq!(session.take_outbound(), Vec::<u8>::new());
}

#[test]
fn handshake_matching_mechanism_sends_token_and_establishes() {
    let auth: Authenticator = PasswordAuthenticator::new("user", "pass").into();
    let mut session = Session::new(Compression::Plain, auth);
    let s1 = session.startup_request();
    let _ = session.take_outbound();
    let challenge = response(
        s1,
        Opcode::Authenticate,
        authenticate_body("org.apache.cassandra.auth.PasswordAuthenticator"),
    );
    let frame = match session.poll_response(s1, ReadEvent::Data(challenge)) {
        SessionPoll::Ready(f) => f,
        _ => panic!("AUTHENTICATE must be delivered to the startup waiter"),
    };
    let s2 = match session.startup_response(&frame) {
        HandshakeStep::AuthResponseSent { stream } => stream,
        _ => panic!("a matching mechanism must queue AUTH_RESPONSE"),
    };
    let sent = session.take_outbound();
    match decode_frame(&sent) {
        DecodeOutcome::Complete(f, consumed) => {
            assert_eq!(consumed, sent.len());
            assert_eq!(f.opcode, Opcode::AuthResponse);
            assert_eq!(f.stream, s2);
            let mut token = vec![0u8, 0, 0, 10, 0];
            token.extend_from_slice(b"user");
            token.push(0);
            token.extend_from_slice(b"pass");
            assert_eq!(f.body, token);
        },
        _ => panic!("the queued bytes must be one AUTH_RESPONSE frame"),
    }
    let success = response(s2, Opcode::AuthSuccess, vec![]);
    let confirm = match session.poll_response(s2, ReadEvent::Data(success)) {
        SessionPoll::Ready(f) => f,
        _ => panic!("the authentication answer must be delivered"),
    };
    match session.startup_response(&confirm) {
        HandshakeStep::Established => {},
        _ => panic!("any answer to AUTH_RESPONSE must establish the session"),
    }
}

#[test]
fn handshake_unexpected_opcode_is_fatal() {
    let auth: Authenticator = (NoneAuthenticator {}).into();
    let mut session = Session::new(Compression::Plain, auth);
    let s1 = session.startup_request();
    let _ = session.take_outbound();
    let odd = response(s1, Opcode::Supported, vec![]);
    let frame = match session.poll_response(s1, ReadEvent::Data(odd)) {
        SessionPoll::Ready(f) => f,
        _ => panic!("the answer must be delivered to the startup waiter"),
    };
    match session.startup_response(&frame) {
        HandshakeStep::Failed(DriverError::UnexpectedOpcode { opcode }) => {
            assert_eq!(opcode, Opcode::Supported);
        },
        _ => panic!("any other opcode must fail the handshake"),
    }
}

#[test]
fn responses_in_any_order_reach_their_own_waiters() {
    let mut session = connect_plain();
    let a = session.query("SELECT a FROM t");
    let b = session.query("SELECT b FROM t");
    let c = session.query("SELECT c FROM t");
    assert_ne!(a, b);
    assert_ne!(b, c);
    assert_ne!(a, c);
    let _requests = session.take_outbound();
    // The responses come back in reverse order, while waiter `a` polls.
    let void = vec![0, 0, 0, 1];
    match session.poll_response(a, ReadEvent::Data(response(c, Opcode::Result, void.clone()))) {
        SessionPoll::Pending => {},
        _ => panic!("another waiter's response must be parked, not delivered"),
    }
    match session.poll_response(a, ReadEvent::Data(response(b, Opcode::Result, void.clone()))) {
        SessionPoll::Pending => {},
        _ => panic!("another waiter's response must be parked, not delivered"),
    }
    match session.poll_response(a, ReadEvent::Data(response(a, Opcode::Result, void.clone()))) {
        SessionPoll::Ready(f) => assert_eq!(f.stream, a),
        _ => panic!("the waiter's own response must be delivered"),
    }
    // The parked responses are claimed without any further reads.
    match session.poll_response(c, ReadEvent::Data(vec![])) {
        SessionPoll::Ready(f) => assert_eq!(f.stream, c),
        _ => panic!("the parked response must be claimed by its own waiter"),
    }
    match session.poll_response(b, ReadEvent::Data(vec![])) {
        SessionPoll::Ready(f) => assert_eq!(f.stream, b),
        _ => panic!("the parked response must be claimed by its own waiter"),
    }
    // Each response was delivered exactly once.
    match session.poll_response(b, ReadEvent::Data(vec![])) {
        SessionPoll::Pending => {},
        _ => panic!("a claimed response must be gone for good"),
    }
}

#[test]
fn create_keyspace_round_trip_end_to_end() {
    let mut session = connect_plain();
    let stream = session.query(
        "CREATE KEYSPACE test_ks WITH REPLICATION = { \
         'class' : 'SimpleStrategy', 'replication_factor' : 1 };",
    );
    let _request = session.take_outbound();
    // The server answers with a void RESULT under the same id.
    let result = response(stream, Opcode::Result, vec![0, 0, 0, 1]);
    match session.poll_response(stream, ReadEvent::Data(result)) {
        SessionPoll::Ready(f) => {
            assert_eq!(f.stream, stream);
            assert_eq!(f.opcode, Opcode::Result);
            assert_eq!(f.body, vec![0, 0, 0, 1]);
        },
        _ => panic!("the result must reach the caller that issued the query"),
    }
}

#[test]
fn server_error_frame_is_delivered_as_error_value() {
    let mut session = connect_plain();
    let stream = session.query("SELECT * FROM missing_table");
    let _request = session.take_outbound();
    let mut body = vec![0, 0, 0x22, 0x00];
    body.extend_from_slice(&[0, 5]);
    body.extend_from_slice(b"oops!");
    let err = response(stream, Opcode::Error, body);
    match session.poll_response(stream, ReadEvent::Data(err)) {
        SessionPoll::Failed(DriverError::Server { code, message }) => {
            assert_eq!(code, 0x2200);
            assert_eq!(message, b"oops!".to_vec());
        },
        _ => panic!("an ERROR frame must be delivered as the server's error"),
    }
}

#[test]
fn terminated_stream_fails_outstanding_waiters() {
    let mut session = connect_plain();
    let stream = session.query("SELECT a FROM t");
    let _request = session.take_outbound();
    // A truncated final chunk arrives, then the transport closes.
    let whole = response(stream, Opcode::Result, vec![0, 0, 0, 1]);
    let truncated = whole[..whole.len() - 2].to_vec();
    match session.poll_response(stream, ReadEvent::Data(truncated)) {
        SessionPoll::Pending => {},
        _ => panic!("a truncated frame must not be delivered"),
    }
    match session.poll_response(stream, ReadEvent::Failed) {
        SessionPoll::Failed(DriverError::StreamTerminated) => {},
        _ => panic!("the waiter must learn that the stream ended"),
    }
    // The wait does not hang afterwards either: the answer repeats.
    match session.poll_response(stream, ReadEvent::Data(vec![])) {
        SessionPoll::Failed(DriverError::StreamTerminated) => {},
        _ => panic!("a terminated session must keep failing waiters"),
    }
}

#[test]
fn prepare_response_yields_prepared_id() {
    let mut session = connect_plain();
    let stream = session.prepare("SELECT a FROM t WHERE k = ?");
    let _request = session.take_outbound();
    let mut body = vec![0, 0, 0, 4];
    body.extend_from_slice(&[0, 3, 0xAB, 0xCD, 0xEF]);
    let result = response(stream, Opcode::Result, body);
    let frame = match session.poll_response(stream, ReadEvent::Data(result)) {
        SessionPoll::Ready(f) => f,
        _ => panic!("the prepared result must be delivered"),
    };
    assert_eq!(prepared_id_of_response(&frame), Ok(vec![0xAB, 0xCD, 0xEF]));
}

#[test]
fn prepare_response_without_id_is_refused() {
    let frame = Frame {
        version: Version::Response,
        flags: 0,
        opcode: Opcode::Result,
        stream: 1,
        body: vec![0, 0, 0, 1],
    };
    assert_eq!(prepared_id_of_response(&frame), Err(DriverError::MissingPreparedId));
}

#[test]
fn query_frame_exact_bytes() {
    let mut session = connect_plain();
    let stream = session.query("SELECT 1");
    let sent = session.take_outbound();
    let mut expected = vec![0x04, 0x00, (stream >> 8) as u8, stream as u8, 0x07, 0, 0, 0, 15];
    expected.extend_from_slice(&[0, 0, 0, 8]);
    expected.extend_from_slice(b"SELECT 1");
    expected.extend_from_slice(&[0, 1, 0]);
    assert_eq!(sent, expected);
}

#[test]
fn query_with_values_frame_exact_bytes() {
    let mut session = connect_plain();
    let values = cdrs_async::query::QueryValues::SimpleValues(vec![
        cdrs_async::query::Value::Normal(vec![9]),
        cdrs_async::query::Value::Null,
    ]);
    let stream = session.query_with_values("INSERT", values);
    let sent = session.take_outbound();
    let mut expected = vec![0x04, 0x00, (stream >> 8) as u8, stream as u8, 0x07, 0, 0, 0, 24];
    expected.extend_from_slice(&[0, 0, 0, 6]);
    expected.extend_from_slice(b"INSERT");
    expected.extend_from_slice(&[0, 1, 0x01]);
    expected.extend_from_slice(&[0, 2]);
    expected.extend_from_slice(&[0, 0, 0, 1, 9]);
    expected.extend_from_slice(&[0xFF, 0xFF, 0xFF, 0xFF]);
    assert_eq!(sent, expected);
}

#[test]
fn exec_frame_exact_bytes() {
    let mut session = connect_plain();
    let prepared: cdrs_async::PreparedQuery = vec![0xAB, 0xCD];
    let stream = session.exec(&prepared);
    let sent = session.take_outbound();
    let mut expected = vec![0x04, 0x00, (stream >> 8) as u8, stream as u8, 0x0A, 0, 0, 0, 7];
    expected.extend_from_slice(&[0, 2, 0xAB, 0xCD]);
    expected.extend_from_slice(&[0, 1, 0]);
    assert_eq!(sent, expected);
}

#[test]
fn batch_frame_exact_bytes() {
    let mut session = connect_plain();
    let batch = cdrs_async::query::QueryBatch {
        batch_type: cdrs_async::query::BatchType::Logged,
        queries: vec![cdrs_async::query::BatchQuery {
            subject: cdrs_async::query::BatchSubject::QueryString("Q".to_string()),
            values: cdrs_async::query::QueryValues::SimpleValues(vec![]),
        }],
        consistency: cdrs_async::query::Consistency::One,
        serial_consistency: None,
        timestamp: None,
    };
    let stream = session.batch_with_params(batch);
    let sent = session.take_outbound();
    let mut expected = vec![0x04, 0x00, (stream >> 8) as u8, stream as u8, 0x0D, 0, 0, 0, 14];
    expected.push(0);
    expected.extend_from_slice(&[0, 1]);
    expected.push(0);
    expected.extend_from_slice(&[0, 0, 0, 1]);
    expected.push(b'Q');
    expected.extend_from_slice(&[0, 0]);
    expected.extend_from_slice(&[0, 1, 0]);
    assert_eq!(sent, expected);
}

#[test]
fn tracing_and_warning_flags_are_set() {
    let mut session = connect_plain();
    let _stream = session.query_tw("SELECT 1", true, true);
    let sent = session.take_outbound();
    assert_eq!(sent[1], 0x0A);
}

#[test]
fn session_reports_its_compressor() {
    let session = connect_plain();
    assert_eq!(session.get_compressor(), Compression::Plain);
}

#[test]
fn error_descriptions_are_fixed() {
    assert_eq!(DriverError::StreamTerminated.describe(), "stream was terminated");
    assert_eq!(
        DriverError::NoAuthenticatorProvided.describe(),
        "no authenticator was provided"
    );
}

#[test]
fn prepare_flags_fold_to_the_flags_byte() {
    assert_eq!(flags_byte(&prepare_flags(false, false)), 0x00);
    assert_eq!(flags_byte(&prepare_flags(true, false)), 0x02);
    assert_eq!(flags_byte(&prepare_flags(false, true)), 0x08);
    assert_eq!(flags_byte(&prepare_flags(true, true)), 0x0A);
}
