//! The cursor-based pager: repeated paged queries as a resumable
//! iteration.
//!
//! A `PagerState` is a plain value — an optional server-issued cursor and
//! the last-known more-pages flag — with no tie to any live session; it
//! can be stored and later handed to a fresh pager to resume exactly where
//! iteration stopped.  Each page fetch issues one paged QUERY or EXECUTE
//! and, on the response, replaces the state wholesale with the server's
//! paging metadata.
//!
//! The whole response body, rows and paging metadata alike, is read by
//! this crate's own verified parser; absorbing a page cannot fail except
//! by refusing a body that is not a rows result.

use vstd::prelude::*;

use crate::errors::DriverError;
use crate::frame::Frame;
use crate::frame::Opcode;
use crate::frame::spec_request_flags;
use crate::query::QueryParams;
use crate::requests::spec_execute_body;
use crate::requests::spec_query_body;
use crate::rows::Row;
use crate::rows::parse_rows_page;
use crate::rows::spec_rows_page;
use crate::rows::spec_rows_views;
use crate::session::HandshakeState;
use crate::session::PreparedQuery;
use crate::session::Session;

verus! {

/// The number of rows asked for per page.
pub type PageSize = i32;

fn clone_bytes(v: &Vec<u8>) -> (r: Vec<u8>)
    ensures
        r@ == v@,
{
    vstd::slice::slice_to_vec(v.as_slice())
}

/// The resumable position of a paged iteration.
#[derive(Clone, PartialEq, Debug)]
pub struct PagerState {
    cursor: Option<Vec<u8>>,
    has_more_pages: Option<bool>,
}

impl PagerState {
    /// The saved cursor, if a page fetch stored one.
    pub closed spec fn spec_cursor(&self) -> Option<Seq<u8>> {
        match self.cursor {
            Some(c) => Some(c@),
            None => None,
        }
    }

    /// The saved cursor as it is held.
    pub closed spec fn spec_cursor_vec(&self) -> Option<Vec<u8>> {
        self.cursor
    }

    /// The last-known more-pages flag, if a page fetch stored one.
    pub closed spec fn spec_has_more(&self) -> Option<bool> {
        self.has_more_pages
    }

    /// The cursor views of the two spec accessors agree.
    pub proof fn lemma_cursor_views(&self)
        ensures
            self.spec_cursor_vec() is Some <==> self.spec_cursor() is Some,
            self.spec_cursor_vec() matches Some(c) ==> Some(c@) == self.spec_cursor(),
    {
    }

    /// The state before any page was fetched.
    pub fn new() -> (r: PagerState)
        ensures
            r.spec_cursor() is None,
            r.spec_has_more() is None,
    {
        PagerState { cursor: None, has_more_pages: None }
    }

    /// A state resuming from a saved cursor.
    pub fn with_cursor(cursor: Vec<u8>) -> (r: PagerState)
        ensures
            r.spec_cursor() == Some(cursor@),
            r.spec_has_more() is None,
    {
        PagerState { cursor: Some(cursor), has_more_pages: None }
    }

    /// A state resuming from a saved cursor and more-pages flag.
    pub fn with_cursor_and_more_flag(cursor: Vec<u8>, has_more: bool) -> (r: PagerState)
        ensures
            r.spec_cursor() == Some(cursor@),
            r.spec_has_more() == Some(has_more),
    {
        PagerState { cursor: Some(cursor), has_more_pages: Some(has_more) }
    }

    /// Whether the server reported more pages; `false` before any fetch.
    pub fn has_more(&self) -> (r: bool)
        ensures
            r == (self.spec_has_more() == Some(true)),
    {
        match self.has_more_pages {
            Some(b) => b,
            None => false,
        }
    }

    /// The saved cursor, copied out.
    pub fn get_cursor(&self) -> (r: Option<Vec<u8>>)
        ensures
            r is Some <==> self.spec_cursor() is Some,
            r matches Some(c) ==> Some(c@) == self.spec_cursor(),
    {
        match &self.cursor {
            Some(c) => Some(clone_bytes(c)),
            None => None,
        }
    }

    /// A copy with the same cursor view and flag.
    fn duplicate(&self) -> (r: PagerState)
        ensures
            r.spec_cursor() == self.spec_cursor(),
            r.spec_has_more() == self.spec_has_more(),
    {
        PagerState {
            cursor: match &self.cursor {
                Some(c) => Some(clone_bytes(c)),
                None => None,
            },
            has_more_pages: self.has_more_pages,
        }
    }
}

/// A session together with the page size its pagers use.
pub struct SessionPager {
    page_size: i32,
    session: Session,
}

impl SessionPager {
    /// The page size of every request this pager issues.
    pub closed spec fn spec_page_size(&self) -> i32 {
        self.page_size
    }

    /// The session the pager drives.
    pub closed spec fn spec_session(&self) -> Session {
        self.session
    }

    pub fn new(session: Session, page_size: PageSize) -> (r: SessionPager)
        ensures
            r.spec_session() == session,
            r.spec_page_size() == page_size,
    {
        SessionPager { session, page_size }
    }

    /// Begins a paged query iteration from a saved state.
    pub fn query_with_pager_state(&mut self, query: &str, state: PagerState) -> (r: QueryPager)
        ensures
            final(self).spec_session() == old(self).spec_session(),
            final(self).spec_page_size() == old(self).spec_page_size(),
            r.spec_query() == query@,
            r.spec_state().spec_cursor() == state.spec_cursor(),
            r.spec_state().spec_has_more() == state.spec_has_more(),
    {
        QueryPager { query: query.to_string(), pager_state: state }
    }

    /// Begins a paged query iteration from the start.
    pub fn query(&mut self, query: &str) -> (r: QueryPager)
        ensures
            final(self).spec_session() == old(self).spec_session(),
            final(self).spec_page_size() == old(self).spec_page_size(),
            r.spec_query() == query@,
            r.spec_state().spec_cursor() is None,
            r.spec_state().spec_has_more() is None,
    {
        self.query_with_pager_state(query, PagerState::new())
    }

    /// Begins a paged iteration of a prepared statement from a saved
    /// state.
    pub fn exec_with_pager_state(&mut self, query: PreparedQuery, state: PagerState) -> (r:
        ExecPager)
        ensures
            final(self).spec_session() == old(self).spec_session(),
            final(self).spec_page_size() == old(self).spec_page_size(),
            r.spec_query_id() == query@,
            r.spec_state().spec_cursor() == state.spec_cursor(),
            r.spec_state().spec_has_more() == state.spec_has_more(),
    {
        ExecPager { query, pager_state: state }
    }

    /// Begins a paged iteration of a prepared statement from the start.
    pub fn exec(&mut self, query: PreparedQuery) -> (r: ExecPager)
        ensures
            final(self).spec_session() == old(self).spec_session(),
            final(self).spec_page_size() == old(self).spec_page_size(),
            r.spec_query_id() == query@,
            r.spec_state().spec_cursor() is None,
            r.spec_state().spec_has_more() is None,
    {
        self.exec_with_pager_state(query, PagerState::new())
    }
}

impl SessionPager {
    /// Hands over everything the wrapped session queued for sending; the
    /// caller writes it to the transport and flushes.
    pub fn take_outbound(&mut self) -> (r: Vec<u8>)
        ensures
            r@ == old(self).spec_session().spec_outbound(),
            final(self).spec_page_size() == old(self).spec_page_size(),
            final(self).spec_session().spec_outbound() == Seq::<u8>::empty(),
            final(self).spec_session().unchanged_but_outbound(old(self).spec_session()),
    {
        self.session.take_outbound()
    }

    /// One wait cycle on the wrapped session, as
    /// [`Session::poll_response`].
    pub fn poll_response(&mut self, stream: u16, event: crate::frame_channel::ReadEvent) -> (r:
        crate::session::SessionPoll)
        requires
            old(self).spec_session().wf(),
        ensures
            final(self).spec_page_size() == old(self).spec_page_size(),
            crate::session::spec_poll_post(
                old(self).spec_session(),
                final(self).spec_session(),
                stream,
                event,
                r,
            ),
    {
        self.session.poll_response(stream, event)
    }
}

impl Session {
    /// Wraps the session for paged iteration.
    pub fn into_pager(self, page_size: PageSize) -> (r: SessionPager)
        ensures
            r.spec_session() == self,
            r.spec_page_size() == page_size,
    {
        SessionPager::new(self, page_size)
    }
}

/// What absorbing a page response does, whichever pager kind absorbs it:
/// a rows RESULT replaces the state wholesale with the response's paging
/// metadata and yields exactly the rows the body decodes to; anything
/// else keeps the state and is refused as `NotRows`.
pub open spec fn spec_page_absorbed(
    pre: PagerState,
    post: PagerState,
    frame: Frame,
    r: Result<Vec<Row>, DriverError>,
) -> bool {
    if frame.opcode == Opcode::Result && spec_rows_page(frame.body@) is Some {
        let page = spec_rows_page(frame.body@)->Some_0;
        &&& post.spec_has_more() == Some(page.has_more)
        &&& post.spec_cursor() == page.cursor
        &&& (r matches Ok(rows) && spec_rows_views(rows) == page.rows)
    } else {
        &&& post.spec_cursor() == pre.spec_cursor()
        &&& post.spec_has_more() == pre.spec_has_more()
        &&& r == Err::<Vec<Row>, DriverError>(DriverError::NotRows)
    }
}

/// A paged iteration of a CQL query.
pub struct QueryPager {
    query: String,
    pager_state: PagerState,
}

impl QueryPager {
    /// The query text of this iteration.
    pub closed spec fn spec_query(&self) -> Seq<char> {
        self.query@
    }

    /// The saved position.
    pub closed spec fn spec_state(&self) -> PagerState {
        self.pager_state
    }

    /// The cursor as held.
    pub closed spec fn spec_cursor_vec(&self) -> Option<Vec<u8>> {
        self.pager_state.spec_cursor_vec()
    }

    /// Issues the request for the next page: a QUERY carrying the page
    /// size and, where one is saved, the cursor.  Returns the id to wait
    /// on; hand the response to [`QueryPager::next_response`].
    pub fn next_request(&self, pager: &mut SessionPager) -> (r: u16)
        requires
            old(pager).spec_session().wf(),
            old(pager).spec_session().spec_state() == HandshakeState::Established,
            vstd::utf8::encode_utf8(self.spec_query()).len() <= i32::MAX,
            crate::requests::spec_params_wf(
                QueryParams::spec_paged(old(pager).spec_page_size(), self.spec_cursor_vec()),
            ),
            spec_query_body(
                self.spec_query(),
                QueryParams::spec_paged(old(pager).spec_page_size(), self.spec_cursor_vec()),
            ).len() <= u32::MAX,
        ensures
            final(pager).spec_page_size() == old(pager).spec_page_size(),
            final(pager).spec_session().spec_issued(
                old(pager).spec_session(),
                Opcode::Query,
                spec_request_flags(false, false),
                spec_query_body(
                    self.spec_query(),
                    QueryParams::spec_paged(old(pager).spec_page_size(), self.spec_cursor_vec()),
                ),
                r,
            ),
    {
        let cursor = match &self.pager_state.cursor {
            Some(c) => Some(clone_bytes(c)),
            None => None,
        };
        let params = QueryParams::paged(pager.page_size, cursor);
        proof {
            crate::requests::lemma_paged_params_cursor_view(
                self.spec_query(),
                pager.spec_page_size(),
                params.paging_state,
                self.spec_cursor_vec(),
            );
        }
        pager.session.query_with_params(self.query.as_str(), params)
    }

    /// Absorbs the response to the last page request: on a rows RESULT,
    /// replaces the saved state with the server's paging metadata and
    /// hands back every decoded row; refuses anything else untouched.
    pub fn next_response(&mut self, frame: &Frame) -> (r: Result<Vec<Row>, DriverError>)
        ensures
            final(self).spec_query() == old(self).spec_query(),
            spec_page_absorbed(old(self).spec_state(), final(self).spec_state(), *frame, r),
    {
        if !(frame.opcode == Opcode::Result) {
            return Err(DriverError::NotRows);
        }
        let page = match parse_rows_page(&frame.body) {
            Some(p) => p,
            None => {
                return Err(DriverError::NotRows);
            },
        };
        self.pager_state = PagerState {
            cursor: page.cursor,
            has_more_pages: Some(page.has_more),
        };
        Ok(page.rows)
    }

    /// Whether the server reported more pages; `false` before any fetch.
    pub fn has_more(&self) -> (r: bool)
        ensures
            r == (self.spec_state().spec_has_more() == Some(true)),
    {
        self.pager_state.has_more()
    }

    /// A copy of the saved position, safe to keep and to resume from with
    /// a fresh pager later.
    pub fn pager_state(&self) -> (r: PagerState)
        ensures
            r.spec_cursor() == self.spec_state().spec_cursor(),
            r.spec_has_more() == self.spec_state().spec_has_more(),
    {
        self.pager_state.duplicate()
    }
}

/// A paged iteration of a prepared statement.
pub struct ExecPager {
    query: PreparedQuery,
    pager_state: PagerState,
}

impl ExecPager {
    /// The prepared-statement id of this iteration.
    pub closed spec fn spec_query_id(&self) -> Seq<u8> {
        self.query@
    }

    /// The saved position.
    pub closed spec fn spec_state(&self) -> PagerState {
        self.pager_state
    }

    /// The cursor as held.
    pub closed spec fn spec_cursor_vec(&self) -> Option<Vec<u8>> {
        self.pager_state.spec_cursor_vec()
    }

    /// Issues the request for the next page: an EXECUTE carrying the page
    /// size and, where one is saved, the cursor.
    pub fn next_request(&self, pager: &mut SessionPager) -> (r: u16)
        requires
            old(pager).spec_session().wf(),
            old(pager).spec_session().spec_state() == HandshakeState::Established,
            self.spec_query_id().len() <= u16::MAX,
            crate::requests::spec_params_wf(
                QueryParams::spec_paged(old(pager).spec_page_size(), self.spec_cursor_vec()),
            ),
            spec_execute_body(
                self.spec_query_id(),
                QueryParams::spec_paged(old(pager).spec_page_size(), self.spec_cursor_vec()),
            ).len() <= u32::MAX,
        ensures
            final(pager).spec_page_size() == old(pager).spec_page_size(),
            final(pager).spec_session().spec_issued(
                old(pager).spec_session(),
                Opcode::Execute,
                spec_request_flags(false, false),
                spec_execute_body(
                    self.spec_query_id(),
                    QueryParams::spec_paged(old(pager).spec_page_size(), self.spec_cursor_vec()),
                ),
                r,
            ),
    {
        let cursor = match &self.pager_state.cursor {
            Some(c) => Some(clone_bytes(c)),
            None => None,
        };
        let params = QueryParams::paged(pager.page_size, cursor);
        proof {
            crate::requests::lemma_paged_params_cursor_view_execute(
                self.spec_query_id(),
                pager.spec_page_size(),
                params.paging_state,
                self.spec_cursor_vec(),
            );
        }
        pager.session.exec_with_params(&self.query, params)
    }

    /// Absorbs the response to the last page request, as
    /// [`QueryPager::next_response`] does.
    pub fn next_response(&mut self, frame: &Frame) -> (r: Result<Vec<Row>, DriverError>)
        ensures
            final(self).spec_query_id() == old(self).spec_query_id(),
            spec_page_absorbed(old(self).spec_state(), final(self).spec_state(), *frame, r),
    {
        if !(frame.opcode == Opcode::Result) {
            return Err(DriverError::NotRows);
        }
        let page = match parse_rows_page(&frame.body) {
            Some(p) => p,
            None => {
                return Err(DriverError::NotRows);
            },
        };
        self.pager_state = PagerState {
            cursor: page.cursor,
            has_more_pages: Some(page.has_more),
        };
        Ok(page.rows)
    }

    /// Whether the server reported more pages; `false` before any fetch.
    pub fn has_more(&self) -> (r: bool)
        ensures
            r == (self.spec_state().spec_has_more() == Some(true)),
    {
        self.pager_state.has_more()
    }

    /// A copy of the saved position, safe to keep and to resume from with
    /// a fresh pager later.
    pub fn pager_state(&self) -> (r: PagerState)
        ensures
            r.spec_cursor() == self.spec_state().spec_cursor(),
            r.spec_has_more() == self.spec_state().spec_has_more(),
    {
        self.pager_state.duplicate()
    }
}

/// Resuming is faithful: a pager handed the state another pager saved
/// issues, for the same query and page size, a request whose bytes are
/// identical to the one the first pager would have issued next; and
/// both, handed the same response, deliver pages equal row for row and
/// cell for cell, and arrive at identical states.  What the server
/// answers to identical request bytes is its affair.
pub proof fn lemma_pager_resume(
    query: Seq<char>,
    page_size: i32,
    first: QueryPager,
    resumed: QueryPager,
    response: Frame,
    post_first: PagerState,
    post_resumed: PagerState,
    r_first: Result<Vec<Row>, DriverError>,
    r_resumed: Result<Vec<Row>, DriverError>,
)
    requires
        first.spec_query() == query,
        resumed.spec_query() == query,
        resumed.spec_state().spec_cursor() == first.spec_state().spec_cursor(),
        resumed.spec_state().spec_has_more() == first.spec_state().spec_has_more(),
        spec_page_absorbed(first.spec_state(), post_first, response, r_first),
        spec_page_absorbed(resumed.spec_state(), post_resumed, response, r_resumed),
    ensures
        spec_query_body(query, QueryParams::spec_paged(page_size, first.spec_cursor_vec()))
            == spec_query_body(query, QueryParams::spec_paged(page_size, resumed.spec_cursor_vec())),
        post_first.spec_cursor() == post_resumed.spec_cursor(),
        post_first.spec_has_more() == post_resumed.spec_has_more(),
        r_first matches Ok(a) ==> (r_resumed matches Ok(b) && spec_rows_views(a)
            == spec_rows_views(b)),
        r_first is Err <==> r_resumed is Err,
{
    first.spec_state().lemma_cursor_views();
    resumed.spec_state().lemma_cursor_views();
    crate::requests::lemma_paged_params_cursor_view(
        query,
        page_size,
        first.spec_cursor_vec(),
        resumed.spec_cursor_vec(),
    );
}

} // verus!
