use cdrs_async::Authenticator;
use cdrs_async::DriverError;
use cdrs_async::Frame;
use cdrs_async::NoneAuthenticator;
use cdrs_async::Opcode;
use cdrs_async::Session;
use cdrs_async::Version;
use cdrs_async::CellValue;
use cassandra_proto::types::IntoRustByIndex;
use cdrs_async::codec::DecodeOutcome;
use cdrs_async::codec::decode_frame;
use cdrs_async::codec::encode_frame;
use cdrs_async::compression::Compression;
use cdrs_async::frame_channel::ReadEvent;
use cdrs_async::session::HandshakeStep;
use cdrs_async::session::SessionPoll;

fn response(stream: u16, opcode: Opcode, body: Vec<u8>) -> Vec<u8> {
    encode_frame(&Frame { version: Version::Response, flags: 0, opcode, stream, body })
}

fn connect_plain() -> Session {
    let auth: Authenticator = (NoneAuthenticator {}).into();
    let mut session = Session::new(Compression::Plain, auth);
    let s1 = session.startup_request();
    let _ = session.take_outbound();
    let ready = response(s1, Opcode::Ready, vec![]);
    let frame = match session.poll_response(s1, ReadEvent::Data(ready)) {
        SessionPoll::Ready(f) => f,
        _ => panic!("READY must be delivered to the startup waiter"),
    };
    match session.startup_response(&frame) {
        HandshakeStep::Established => {},
        _ => panic!("READY must establish the session"),
    }
    session
}

/// A rows RESULT body with one varchar column and one row, optionally
/// carrying a paging cursor.
fn rows_body(cursor: Option<&[u8]>, cell: &[u8]) -> Vec<u8> {
    let mut body = vec![0, 0, 0, 2];
    match cursor {
        Some(_) => body.extend_from_slice(&[0, 0, 0, 2]),
        None => body.extend_from_slice(&[0, 0, 0, 0]),
    }
    body.extend_from_slice(&[0, 0, 0, 1]);
    if let Some(c) = cursor {
        body.extend_from_slice(&[0, 0, 0, c.len() as u8]);
        body.extend_from_slice(c);
    }
    // One column spec: keyspace, table, name, type varchar.
    body.extend_from_slice(&[0, 1]);
    body.push(b'k');
    body.extend_from_slice(&[0, 1]);
    body.push(b't');
    body.extend_from_slice(&[0, 1]);
    body.push(b'c');
    body.extend_from_slice(&[0, 0x0D]);
    // One row with one cell.
    body.extend_from_slice(&[0, 0, 0, 1]);
    body.extend_from_slice(&[0, 0, 0, cell.len() as u8]);
    body.extend_from_slice(cell);
    body
}

fn body_of(bytes: &[u8]) -> (Opcode, Vec<u8>) {
    match decode_frame(bytes) {
        DecodeOutcome::Complete(f, consumed) => {
            assert_eq!(consumed, bytes.len());
            (f.opcode, f.body)
        },
        _ => panic!("the queued bytes must be one whole frame"),
    }
}

#[test]
fn first_page_request_carries_page_size_only() {
    let mut pager = connect_plain().into_pager(2);
    let qp = pager.query("SELECT * FROM t");
    let sid = qp.next_request(&mut pager);
    let (opcode, body) = body_of(&pager.take_outbound());
    assert_eq!(opcode, Opcode::Query);
    let mut expected = vec![0, 0, 0, 15];
    expected.extend_from_slice(b"SELECT * FROM t");
    expected.extend_from_slice(&[0, 1, 0x04, 0, 0, 0, 2]);
    assert_eq!(body, expected);
    let _ = sid;
}

#[test]
fn later_page_request_carries_the_cursor() {
    let mut pager = connect_plain().into_pager(2);
    let mut qp = pager.query("SELECT * FROM t");
    let sid = qp.next_request(&mut pager);
    let _ = pager.take_outbound();
    let page1 = response(sid, Opcode::Result, rows_body(Some(b"CUR1"), b"v1"));
    let f1 = match pager.poll_response(sid, ReadEvent::Data(page1)) {
        SessionPoll::Ready(f) => f,
        _ => panic!("the first page must be delivered"),
    };
    let rows1 = qp.next_response(&f1).expect("the first page must hold rows");
    assert_eq!(rows1, vec![vec![CellValue::Bytes(b"v1".to_vec())]]);
    assert!(qp.has_more());
    let sid2 = qp.next_request(&mut pager);
    let (opcode, body) = body_of(&pager.take_outbound());
    assert_eq!(opcode, Opcode::Query);
    let mut expected = vec![0, 0, 0, 15];
    expected.extend_from_slice(b"SELECT * FROM t");
    expected.extend_from_slice(&[0, 1, 0x0C, 0, 0, 0, 2, 0, 0, 0, 4]);
    expected.extend_from_slice(b"CUR1");
    assert_eq!(body, expected);
    let _ = sid2;
}

#[test]
fn saved_state_resumes_identically() {
    // Drive an original pager through page one.
    let mut pager = connect_plain().into_pager(2);
    let mut qp = pager.query("SELECT * FROM t");
    let sid1 = qp.next_request(&mut pager);
    let _ = pager.take_outbound();
    let page1 = response(sid1, Opcode::Result, rows_body(Some(b"CUR1"), b"v1"));
    let f1 = match pager.poll_response(sid1, ReadEvent::Data(page1)) {
        SessionPoll::Ready(f) => f,
        _ => panic!("the first page must be delivered"),
    };
    qp.next_response(&f1).expect("the first page must hold rows");
    let saved = qp.pager_state();
    assert_eq!(saved.get_cursor(), Some(b"CUR1".to_vec()));
    assert!(saved.has_more());

    // Continue the original pager.
    let sid2 = qp.next_request(&mut pager);
    let (op2, req2) = body_of(&pager.take_outbound());

    // Hand the saved state to a fresh pager on a fresh connection.
    let mut pager2 = connect_plain().into_pager(2);
    let mut qp2 = pager2.query_with_pager_state("SELECT * FROM t", saved);
    let sid2b = qp2.next_request(&mut pager2);
    let (op2b, req2b) = body_of(&pager2.take_outbound());

    // Both issue byte-identical page-two requests.
    assert_eq!(op2, op2b);
    assert_eq!(req2, req2b);

    // Fed identical responses, both deliver identical rows and states.
    let page2 = rows_body(None, b"v2");
    let f2 = match pager.poll_response(
        sid2,
        ReadEvent::Data(response(sid2, Opcode::Result, page2.clone())),
    ) {
        SessionPoll::Ready(f) => f,
        _ => panic!("the second page must be delivered"),
    };
    let f2b = match pager2.poll_response(
        sid2b,
        ReadEvent::Data(response(sid2b, Opcode::Result, page2)),
    ) {
        SessionPoll::Ready(f) => f,
        _ => panic!("the second page must be delivered"),
    };
    let rows2 = qp.next_response(&f2).expect("the second page must hold rows");
    let rows2b = qp2.next_response(&f2b).expect("the second page must hold rows");
    assert_eq!(rows2, vec![vec![CellValue::Bytes(b"v2".to_vec())]]);
    assert_eq!(rows2, rows2b);
    assert_eq!(qp.pager_state(), qp2.pager_state());
    assert!(!qp.has_more());
    assert!(!qp2.has_more());
}

#[test]
fn non_rows_response_is_refused_and_state_kept() {
    let mut pager = connect_plain().into_pager(2);
    let mut qp = pager.query("SELECT * FROM t");
    let before = qp.pager_state();
    let void = Frame {
        version: Version::Response,
        flags: 0,
        opcode: Opcode::Result,
        stream: 1,
        body: vec![0, 0, 0, 1],
    };
    match qp.next_response(&void) {
        Err(DriverError::NotRows) => {},
        _ => panic!("a non-rows response must be refused"),
    }
    assert_eq!(qp.pager_state(), before);
}

#[test]
fn exec_pager_pages_a_prepared_statement() {
    let mut pager = connect_plain().into_pager(3);
    let prepared: cdrs_async::PreparedQuery = vec![0xAB, 0xCD];
    let mut ep = pager.exec(prepared);
    let sid = ep.next_request(&mut pager);
    let (opcode, body) = body_of(&pager.take_outbound());
    assert_eq!(opcode, Opcode::Execute);
    let mut expected = vec![0, 2, 0xAB, 0xCD];
    expected.extend_from_slice(&[0, 1, 0x04, 0, 0, 0, 3]);
    assert_eq!(body, expected);
    let page = response(sid, Opcode::Result, rows_body(None, b"v"));
    let f = match pager.poll_response(sid, ReadEvent::Data(page)) {
        SessionPoll::Ready(f) => f,
        _ => panic!("the page must be delivered"),
    };
    let rows = ep.next_response(&f).expect("the page must hold rows");
    assert_eq!(rows, vec![vec![CellValue::Bytes(b"v".to_vec())]]);
    assert!(!ep.has_more());
    assert_eq!(ep.pager_state().get_cursor(), None);
}

#[test]
fn pager_state_constructors_round_trip() {
    let fresh = cdrs_async::PagerState::new();
    assert!(!fresh.has_more());
    assert_eq!(fresh.get_cursor(), None);
    let resumed = cdrs_async::PagerState::with_cursor(vec![1, 2, 3]);
    assert!(!resumed.has_more());
    assert_eq!(resumed.get_cursor(), Some(vec![1, 2, 3]));
    let full = cdrs_async::PagerState::with_cursor_and_more_flag(vec![4, 5], true);
    assert!(full.has_more());
    assert_eq!(full.get_cursor(), Some(vec![4, 5]));
}

#[test]
fn truncated_column_specs_are_refused_not_fatal() {
    // A rows body that declares one column and then ends: the parse must
    // refuse it cleanly.
    let mut pager = connect_plain().into_pager(2);
    let mut qp = pager.query("SELECT * FROM t");
    let before = qp.pager_state();
    let truncated = Frame {
        version: Version::Response,
        flags: 0,
        opcode: Opcode::Result,
        stream: 1,
        body: vec![0, 0, 0, 2, 0, 0, 0, 0, 0, 0, 0, 1],
    };
    match qp.next_response(&truncated) {
        Err(DriverError::NotRows) => {},
        _ => panic!("a truncated rows body must be refused"),
    }
    assert_eq!(qp.pager_state(), before);
}

/// A rows body whose single column has a nested collection type.
fn nested_type_rows_body(cell: &[u8]) -> Vec<u8> {
    let mut body = vec![0, 0, 0, 2];
    body.extend_from_slice(&[0, 0, 0, 0]);
    body.extend_from_slice(&[0, 0, 0, 1]);
    body.extend_from_slice(&[0, 1]);
    body.push(b'k');
    body.extend_from_slice(&[0, 1]);
    body.push(b't');
    body.extend_from_slice(&[0, 1]);
    body.push(b'c');
    // list<list<varchar>>
    body.extend_from_slice(&[0, 0x20, 0, 0x20, 0, 0x0D]);
    body.extend_from_slice(&[0, 0, 0, 1]);
    body.extend_from_slice(&[0, 0, 0, cell.len() as u8]);
    body.extend_from_slice(cell);
    body
}

#[test]
fn nested_collection_types_are_walked() {
    let mut pager = connect_plain().into_pager(2);
    let mut qp = pager.query("SELECT * FROM t");
    let frame = Frame {
        version: Version::Response,
        flags: 0,
        opcode: Opcode::Result,
        stream: 1,
        body: nested_type_rows_body(b"xs"),
    };
    let rows = qp.next_response(&frame).expect("the page must hold rows");
    assert_eq!(rows, vec![vec![CellValue::Bytes(b"xs".to_vec())]]);
}

#[test]
fn null_cells_are_kept_as_nulls() {
    let mut pager = connect_plain().into_pager(2);
    let mut qp = pager.query("SELECT * FROM t");
    let mut body = rows_body(None, b"ignored");
    // Overwrite the cell with a null marker and drop its bytes.
    let cell_start = body.len() - 4 - 7;
    body.truncate(cell_start);
    body.extend_from_slice(&[0xFF, 0xFF, 0xFF, 0xFF]);
    let frame = Frame {
        version: Version::Response,
        flags: 0,
        opcode: Opcode::Result,
        stream: 1,
        body,
    };
    let rows = qp.next_response(&frame).expect("the page must hold rows");
    assert_eq!(rows, vec![vec![CellValue::Null]]);
}

#[test]
fn row_decoding_agrees_with_protocol_crate() {
    let body = rows_body(Some(b"CURS"), b"hello");
    // This crate's verified parse.
    let mut pager = connect_plain().into_pager(2);
    let mut qp = pager.query("SELECT * FROM t");
    let frame = Frame {
        version: Version::Response,
        flags: 0,
        opcode: Opcode::Result,
        stream: 1,
        body: body.clone(),
    };
    let rows = qp.next_response(&frame).expect("the page must hold rows");
    assert_eq!(rows, vec![vec![CellValue::Bytes(b"hello".to_vec())]]);
    // The protocol crate's parse of the same body.
    let decoded = cassandra_proto::frame::frame_response::ResponseBody::from(
        body.as_slice(),
        &cassandra_proto::frame::Opcode::Result,
    )
    .expect("the protocol crate must accept the body")
    .into_rows()
    .expect("the protocol crate must see rows");
    assert_eq!(decoded.len(), rows.len());
    let cell: Option<String> = decoded[0].get_by_index(0).expect("the cell must decode");
    assert_eq!(cell, Some("hello".to_string()));
}
