//! The values a caller attaches to a query: the CQL text, the consistency
//! level, bound values, and paging inputs.  These are plain data; their
//! wire form lives in the request builders.

use vstd::prelude::*;

verus! {

/// A Cassandra consistency level and its two-byte wire code.
#[derive(Clone, Copy, Debug, PartialEq, Eq, Structural)]
pub enum Consistency {
    Any,
    One,
    Two,
    Three,
    Quorum,
    All,
    LocalQuorum,
    EachQuorum,
    Serial,
    LocalSerial,
    LocalOne,
}

impl Consistency {
    pub open spec fn spec_code(self) -> u16 {
        match self {
            Consistency::Any => 0x0000,
            Consistency::One => 0x0001,
            Consistency::Two => 0x0002,
            Consistency::Three => 0x0003,
            Consistency::Quorum => 0x0004,
            Consistency::All => 0x0005,
            Consistency::LocalQuorum => 0x0006,
            Consistency::EachQuorum => 0x0007,
            Consistency::Serial => 0x0008,
            Consistency::LocalSerial => 0x0009,
            Consistency::LocalOne => 0x000A,
        }
    }

    pub fn code(&self) -> (r: u16)
        ensures
            r == self.spec_code(),
    {
        match self {
            Consistency::Any => 0x0000,
            Consistency::One => 0x0001,
            Consistency::Two => 0x0002,
            Consistency::Three => 0x0003,
            Consistency::Quorum => 0x0004,
            Consistency::All => 0x0005,
            Consistency::LocalQuorum => 0x0006,
            Consistency::EachQuorum => 0x0007,
            Consistency::Serial => 0x0008,
            Consistency::LocalSerial => 0x0009,
            Consistency::LocalOne => 0x000A,
        }
    }
}

impl Default for Consistency {
    /// The default consistency level is ONE.
    fn default() -> (r: Consistency)
        ensures
            r == Consistency::One,
    {
        Consistency::One
    }
}

/// One bound value: bytes, an explicit null, or "not set".
#[derive(Debug, Clone)]
pub enum Value {
    Normal(Vec<u8>),
    Null,
    NotSet,
}

/// The bound values of a query: positional, or named.
#[derive(Debug, Clone)]
pub enum QueryValues {
    SimpleValues(Vec<Value>),
    NamedValues(Vec<(String, Value)>),
}

impl QueryValues {
    /// How many values are bound.
    pub open spec fn spec_len(&self) -> nat {
        match self {
            QueryValues::SimpleValues(v) => v@.len(),
            QueryValues::NamedValues(v) => v@.len(),
        }
    }

    /// Whether the values carry names.
    pub open spec fn spec_with_names(&self) -> bool {
        self is NamedValues
    }

    pub fn len(&self) -> (r: usize)
        ensures
            r == self.spec_len(),
    {
        match self {
            QueryValues::SimpleValues(v) => v.len(),
            QueryValues::NamedValues(v) => v.len(),
        }
    }

    pub fn with_names(&self) -> (r: bool)
        ensures
            r == self.spec_with_names(),
    {
        match self {
            QueryValues::SimpleValues(_) => false,
            QueryValues::NamedValues(_) => true,
        }
    }
}

/// Parameters of one query execution.  Every field is written to the wire
/// exactly when present; the flags byte of the wire form records which are.
#[derive(Debug)]
pub struct QueryParams {
    /// Consistency level of the operation.
    pub consistency: Consistency,
    /// Bound values, if any.
    pub values: Option<QueryValues>,
    /// Page size limit for a paged read.
    pub page_size: Option<i32>,
    /// The cursor of the page to continue from.
    pub paging_state: Option<Vec<u8>>,
    /// Serial consistency for lightweight transactions.
    pub serial_consistency: Option<Consistency>,
    /// Client-supplied default timestamp.
    pub timestamp: Option<i64>,
}

impl QueryParams {
    /// Parameters that say nothing beyond the default consistency.
    pub fn basic() -> (r: QueryParams)
        ensures
            r == QueryParams::spec_basic(),
    {
        QueryParams {
            consistency: Consistency::One,
            values: None,
            page_size: None,
            paging_state: None,
            serial_consistency: None,
            timestamp: None,
        }
    }

    /// Parameters of a paged read: a page size, and the cursor to resume
    /// from if there is one.
    pub fn paged(page_size: i32, paging_state: Option<Vec<u8>>) -> (r: QueryParams)
        ensures
            r == QueryParams::spec_paged(page_size, paging_state),
    {
        QueryParams {
            consistency: Consistency::One,
            values: None,
            page_size: Some(page_size),
            paging_state,
            serial_consistency: None,
            timestamp: None,
        }
    }

    /// Parameters that bind values and say nothing else.
    pub fn with_values(values: QueryValues) -> (r: QueryParams)
        ensures
            r == QueryParams::spec_with_values(values),
    {
        QueryParams {
            consistency: Consistency::One,
            values: Some(values),
            page_size: None,
            paging_state: None,
            serial_consistency: None,
            timestamp: None,
        }
    }
}

impl QueryParams {
    /// The value `basic()` returns.
    pub open spec fn spec_basic() -> QueryParams {
        QueryParams {
            consistency: Consistency::One,
            values: None,
            page_size: None,
            paging_state: None,
            serial_consistency: None,
            timestamp: None,
        }
    }

    /// The value `paged(page_size, paging_state)` returns.
    pub open spec fn spec_paged(page_size: i32, paging_state: Option<Vec<u8>>) -> QueryParams {
        QueryParams {
            consistency: Consistency::One,
            values: None,
            page_size: Some(page_size),
            paging_state,
            serial_consistency: None,
            timestamp: None,
        }
    }

    /// The value `with_values(values)` returns.
    pub open spec fn spec_with_values(values: QueryValues) -> QueryParams {
        QueryParams {
            consistency: Consistency::One,
            values: Some(values),
            page_size: None,
            paging_state: None,
            serial_consistency: None,
            timestamp: None,
        }
    }
}

/// How a batch is applied: as a logged batch, an unlogged one, or a
/// counter batch.
#[derive(Clone, Copy, Debug, PartialEq, Eq, Structural)]
pub enum BatchType {
    Logged,
    Unlogged,
    Counter,
}

impl BatchType {
    pub open spec fn spec_byte(self) -> u8 {
        match self {
            BatchType::Logged => 0,
            BatchType::Unlogged => 1,
            BatchType::Counter => 2,
        }
    }

    pub fn as_byte(&self) -> (r: u8)
        ensures
            r == self.spec_byte(),
    {
        match self {
            BatchType::Logged => 0,
            BatchType::Unlogged => 1,
            BatchType::Counter => 2,
        }
    }
}

/// One statement of a batch: CQL text, or the id of a prepared statement.
#[derive(Debug)]
pub enum BatchSubject {
    QueryString(String),
    PreparedId(Vec<u8>),
}

/// One statement of a batch together with its bound values.
#[derive(Debug)]
pub struct BatchQuery {
    /// The statement to run.
    pub subject: BatchSubject,
    /// Its bound values.
    pub values: QueryValues,
}

/// A batch of statements executed as one request.
#[derive(Debug)]
pub struct QueryBatch {
    /// How the batch is applied.
    pub batch_type: BatchType,
    /// The statements, in order.
    pub queries: Vec<BatchQuery>,
    /// Consistency level of the batch.
    pub consistency: Consistency,
    /// Serial consistency for lightweight transactions.
    pub serial_consistency: Option<Consistency>,
    /// Client-supplied default timestamp.
    pub timestamp: Option<i64>,
}

/// A CQL query and the parameters it runs with.
#[derive(Debug)]
pub struct Query {
    /// Query string.
    pub query: String,
    /// Parameters of query.
    pub params: QueryParams,
}

} // verus!
