//! Builders for the bodies of the request frames this crate sends, each
//! proved against a spec function that fixes its wire form byte by byte.
//!
//! The notation follows the protocol's own: a `[string]` is a two-byte
//! big-endian length and that many UTF-8 bytes, a `[long string]` the same
//! with a four-byte length, `[bytes]` a four-byte length and raw bytes, and
//! `[short bytes]` a two-byte length and raw bytes.

use vstd::prelude::*;
use vstd::utf8::encode_utf8;

use crate::codec::spec_u16_be;
use crate::codec::spec_u32_be;
use crate::codec::u16_be;
use crate::codec::u32_be;
use crate::query::BatchQuery;
use crate::query::BatchSubject;
use crate::query::QueryBatch;
use crate::query::QueryParams;
use crate::query::QueryValues;
use crate::query::Value;

verus! {

/// Big-endian bytes of a 64-bit integer.
pub open spec fn spec_u64_be(x: u64) -> Seq<u8> {
    spec_u32_be((x >> 32) as u32) + spec_u32_be(x as u32)
}

fn push_u16(v: &mut Vec<u8>, x: u16)
    ensures
        final(v)@ == old(v)@ + spec_u16_be(x),
{
    let b = u16_be(x);
    v.push(b[0]);
    v.push(b[1]);
    proof {
        assert(v@ =~= old(v)@ + spec_u16_be(x));
    }
}

fn push_u32(v: &mut Vec<u8>, x: u32)
    ensures
        final(v)@ == old(v)@ + spec_u32_be(x),
{
    let b = u32_be(x);
    v.push(b[0]);
    v.push(b[1]);
    v.push(b[2]);
    v.push(b[3]);
    proof {
        assert(v@ =~= old(v)@ + spec_u32_be(x));
    }
}

fn push_u64(v: &mut Vec<u8>, x: u64)
    ensures
        final(v)@ == old(v)@ + spec_u64_be(x),
{
    push_u32(v, (x >> 32) as u32);
    push_u32(v, x as u32);
    proof {
        assert(v@ =~= old(v)@ + spec_u64_be(x));
    }
}

/// A `[string]`: two-byte length, then the UTF-8 bytes.
pub open spec fn spec_string(s: Seq<char>) -> Seq<u8> {
    spec_u16_be(encode_utf8(s).len() as u16) + encode_utf8(s)
}

fn push_string(v: &mut Vec<u8>, s: &str)
    requires
        encode_utf8(s@).len() <= u16::MAX,
    ensures
        final(v)@ == old(v)@ + spec_string(s@),
{
    let bytes = s.as_bytes();
    push_u16(v, bytes.len() as u16);
    v.extend_from_slice(bytes);
    proof {
        assert(v@ =~= old(v)@ + spec_string(s@));
    }
}

/// A `[long string]`: four-byte length, then the UTF-8 bytes.
pub open spec fn spec_long_string(s: Seq<char>) -> Seq<u8> {
    spec_u32_be(encode_utf8(s).len() as u32) + encode_utf8(s)
}

fn push_long_string(v: &mut Vec<u8>, s: &str)
    requires
        encode_utf8(s@).len() <= i32::MAX,
    ensures
        final(v)@ == old(v)@ + spec_long_string(s@),
{
    let bytes = s.as_bytes();
    push_u32(v, bytes.len() as u32);
    v.extend_from_slice(bytes);
    proof {
        assert(v@ =~= old(v)@ + spec_long_string(s@));
    }
}

/// A `[bytes]` value: four-byte length, then the bytes.
pub open spec fn spec_bytes_value(b: Seq<u8>) -> Seq<u8> {
    spec_u32_be(b.len() as u32) + b
}

fn push_bytes_value(v: &mut Vec<u8>, b: &[u8])
    requires
        b@.len() <= i32::MAX,
    ensures
        final(v)@ == old(v)@ + spec_bytes_value(b@),
{
    push_u32(v, b.len() as u32);
    v.extend_from_slice(b);
    proof {
        assert(v@ =~= old(v)@ + spec_bytes_value(b@));
    }
}

/// A `[short bytes]` value: two-byte length, then the bytes.
pub open spec fn spec_short_bytes(b: Seq<u8>) -> Seq<u8> {
    spec_u16_be(b.len() as u16) + b
}

fn push_short_bytes(v: &mut Vec<u8>, b: &[u8])
    requires
        b@.len() <= u16::MAX,
    ensures
        final(v)@ == old(v)@ + spec_short_bytes(b@),
{
    push_u16(v, b.len() as u16);
    v.extend_from_slice(b);
    proof {
        assert(v@ =~= old(v)@ + spec_short_bytes(b@));
    }
}

/// The STARTUP body: a string map holding the CQL version, and the
/// compression algorithm where one was chosen.
pub open spec fn spec_startup_body(compression: Option<Seq<char>>) -> Seq<u8> {
    match compression {
        Some(name) => spec_u16_be(2) + spec_string("CQL_VERSION"@) + spec_string("3.0.0"@)
            + spec_string("COMPRESSION"@) + spec_string(name),
        None => spec_u16_be(1) + spec_string("CQL_VERSION"@) + spec_string("3.0.0"@),
    }
}

/// The STARTUP option keys and values are short ASCII literals.
proof fn lemma_startup_literals()
    ensures
        encode_utf8("CQL_VERSION"@).len() <= u16::MAX,
        encode_utf8("3.0.0"@).len() <= u16::MAX,
        encode_utf8("COMPRESSION"@).len() <= u16::MAX,
        encode_utf8("lz4"@).len() <= u16::MAX,
        encode_utf8("snappy"@).len() <= u16::MAX,
{
    reveal_strlit("CQL_VERSION");
    reveal_strlit("3.0.0");
    reveal_strlit("COMPRESSION");
    reveal_strlit("lz4");
    reveal_strlit("snappy");
    assert(vstd::utf8::is_ascii_chars("CQL_VERSION"@));
    assert(vstd::utf8::is_ascii_chars("3.0.0"@));
    assert(vstd::utf8::is_ascii_chars("COMPRESSION"@));
    assert(vstd::utf8::is_ascii_chars("lz4"@));
    assert(vstd::utf8::is_ascii_chars("snappy"@));
    vstd::utf8::is_ascii_chars_encode_utf8("CQL_VERSION"@);
    vstd::utf8::is_ascii_chars_encode_utf8("3.0.0"@);
    vstd::utf8::is_ascii_chars_encode_utf8("COMPRESSION"@);
    vstd::utf8::is_ascii_chars_encode_utf8("lz4"@);
    vstd::utf8::is_ascii_chars_encode_utf8("snappy"@);
}

/// Builds the STARTUP body for the negotiated compression.
pub fn build_startup_body(compression: crate::compression::Compression) -> (r: Vec<u8>)
    ensures
        r@ == spec_startup_body(compression.spec_name()),
{
    proof {
        lemma_startup_literals();
    }
    let mut v: Vec<u8> = Vec::new();
    match compression.as_str() {
        Some(name) => {
            push_u16(&mut v, 2);
            push_string(&mut v, "CQL_VERSION");
            push_string(&mut v, "3.0.0");
            push_string(&mut v, "COMPRESSION");
            push_string(&mut v, name);
        },
        None => {
            push_u16(&mut v, 1);
            push_string(&mut v, "CQL_VERSION");
            push_string(&mut v, "3.0.0");
        },
    }
    proof {
        assert(v@ =~= spec_startup_body(compression.spec_name()));
    }
    v
}

/// A STARTUP body is short: its option map holds two or three short
/// strings.
pub proof fn lemma_startup_body_len(c: crate::compression::Compression)
    ensures
        spec_startup_body(c.spec_name()).len() <= u32::MAX,
{
    lemma_startup_literals();
    reveal_strlit("lz4");
    reveal_strlit("snappy");
    vstd::utf8::is_ascii_chars_encode_utf8("lz4"@);
    vstd::utf8::is_ascii_chars_encode_utf8("snappy"@);
    assert(vstd::utf8::is_ascii_chars("lz4"@));
    assert(vstd::utf8::is_ascii_chars("snappy"@));
}

/// An AUTH_RESPONSE body is the token plus its four length bytes.
pub proof fn lemma_auth_response_body_len(token: Seq<u8>)
    ensures
        spec_auth_response_body(token).len() == 4 + token.len(),
{
}

/// The AUTH_RESPONSE body: the credential token as one `[bytes]` value.
pub open spec fn spec_auth_response_body(token: Seq<u8>) -> Seq<u8> {
    spec_bytes_value(token)
}

/// Builds the AUTH_RESPONSE body around a credential token.
pub fn build_auth_response_body(token: &Vec<u8>) -> (r: Vec<u8>)
    requires
        token@.len() <= i32::MAX,
    ensures
        r@ == spec_auth_response_body(token@),
{
    let mut v: Vec<u8> = Vec::new();
    push_bytes_value(&mut v, token.as_slice());
    proof {
        assert(v@ =~= spec_auth_response_body(token@));
    }
    v
}

/// The wire form of one bound value: its length and bytes, or the null
/// marker `-1`, or the not-set marker `-2`.
pub open spec fn spec_value(v: Value) -> Seq<u8> {
    match v {
        Value::Normal(b) => spec_u32_be(b@.len() as u32) + b@,
        Value::Null => seq![0xFFu8, 0xFF, 0xFF, 0xFF],
        Value::NotSet => seq![0xFFu8, 0xFF, 0xFF, 0xFE],
    }
}

/// A bound value fits the wire when its byte count fits the length field.
pub open spec fn spec_value_wf(v: Value) -> bool {
    match v {
        Value::Normal(b) => b@.len() <= i32::MAX,
        _ => true,
    }
}

/// The byte forms of the null and not-set markers.
proof fn lemma_marker_bytes()
    ensures
        (0xFFFF_FFFFu32 >> 24) as u8 == 0xFFu8,
        (0xFFFF_FFFFu32 >> 16) as u8 == 0xFFu8,
        (0xFFFF_FFFFu32 >> 8) as u8 == 0xFFu8,
        0xFFFF_FFFFu32 as u8 == 0xFFu8,
        (0xFFFF_FFFEu32 >> 24) as u8 == 0xFFu8,
        (0xFFFF_FFFEu32 >> 16) as u8 == 0xFFu8,
        (0xFFFF_FFFEu32 >> 8) as u8 == 0xFFu8,
        0xFFFF_FFFEu32 as u8 == 0xFEu8,
{
    assert((0xFFFF_FFFFu32 >> 24) as u8 == 0xFFu8) by (bit_vector);
    assert((0xFFFF_FFFFu32 >> 16) as u8 == 0xFFu8) by (bit_vector);
    assert((0xFFFF_FFFFu32 >> 8) as u8 == 0xFFu8) by (bit_vector);
    assert(0xFFFF_FFFFu32 as u8 == 0xFFu8) by (bit_vector);
    assert((0xFFFF_FFFEu32 >> 24) as u8 == 0xFFu8) by (bit_vector);
    assert((0xFFFF_FFFEu32 >> 16) as u8 == 0xFFu8) by (bit_vector);
    assert((0xFFFF_FFFEu32 >> 8) as u8 == 0xFFu8) by (bit_vector);
    assert(0xFFFF_FFFEu32 as u8 == 0xFEu8) by (bit_vector);
}

fn push_value(out: &mut Vec<u8>, v: &Value)
    requires
        spec_value_wf(*v),
    ensures
        final(out)@ == old(out)@ + spec_value(*v),
{
    match v {
        Value::Normal(b) => {
            push_bytes_value(out, b.as_slice());
        },
        Value::Null => {
            push_u32(out, 0xFFFF_FFFF);
            proof {
                lemma_marker_bytes();
                assert(spec_u32_be(0xFFFF_FFFFu32) =~= seq![0xFFu8, 0xFF, 0xFF, 0xFF]);
            }
        },
        Value::NotSet => {
            push_u32(out, 0xFFFF_FFFE);
            proof {
                lemma_marker_bytes();
                assert(spec_u32_be(0xFFFF_FFFEu32) =~= seq![0xFFu8, 0xFF, 0xFF, 0xFE]);
            }
        },
    }
    proof {
        assert(out@ =~= old(out)@ + spec_value(*v));
    }
}

/// The concatenated wire forms of positional values.
pub open spec fn spec_simple_values(vs: Seq<Value>) -> Seq<u8>
    decreases vs.len(),
{
    if vs.len() == 0 {
        Seq::<u8>::empty()
    } else {
        spec_simple_values(vs.drop_last()) + spec_value(vs.last())
    }
}

/// The concatenated wire forms of named values: each name as a `[string]`,
/// then the value.
pub open spec fn spec_named_values(vs: Seq<(String, Value)>) -> Seq<u8>
    decreases vs.len(),
{
    if vs.len() == 0 {
        Seq::<u8>::empty()
    } else {
        spec_named_values(vs.drop_last()) + spec_string(vs.last().0@) + spec_value(vs.last().1)
    }
}

/// The payload of a value list, without its leading count.
pub open spec fn spec_values_payload(qv: QueryValues) -> Seq<u8> {
    match qv {
        QueryValues::SimpleValues(vs) => spec_simple_values(vs@),
        QueryValues::NamedValues(vs) => spec_named_values(vs@),
    }
}

/// A value list fits the wire when its count fits two bytes, every value
/// fits its length field, and every name fits a `[string]`.
pub open spec fn spec_values_wf(qv: QueryValues) -> bool {
    match qv {
        QueryValues::SimpleValues(vs) => vs@.len() <= u16::MAX && forall|i: int|
            0 <= i < vs@.len() ==> spec_value_wf(#[trigger] vs@[i]),
        QueryValues::NamedValues(vs) => vs@.len() <= u16::MAX && forall|i: int|
            0 <= i < vs@.len() ==> spec_value_wf((#[trigger] vs@[i]).1) && encode_utf8(
                vs@[i].0@,
            ).len() <= u16::MAX,
    }
}

fn push_values_payload(out: &mut Vec<u8>, qv: &QueryValues)
    requires
        spec_values_wf(*qv),
    ensures
        final(out)@ == old(out)@ + spec_values_payload(*qv),
{
    match qv {
        QueryValues::SimpleValues(vs) => {
            let mut i: usize = 0;
            while i < vs.len()
                invariant
                    i <= vs@.len(),
                    spec_values_wf(QueryValues::SimpleValues(*vs)),
                    out@ == old(out)@ + spec_simple_values(vs@.take(i as int)),
                decreases vs@.len() - i,
            {
                proof {
                    assert(vs@.take(i + 1).drop_last() =~= vs@.take(i as int));
                    assert(vs@.take(i + 1).last() == vs@[i as int]);
                }
                push_value(out, &vs[i]);
                i = i + 1;
            }
            proof {
                assert(vs@.take(vs@.len() as int) =~= vs@);
            }
        },
        QueryValues::NamedValues(vs) => {
            let mut i: usize = 0;
            while i < vs.len()
                invariant
                    i <= vs@.len(),
                    spec_values_wf(QueryValues::NamedValues(*vs)),
                    out@ == old(out)@ + spec_named_values(vs@.take(i as int)),
                decreases vs@.len() - i,
            {
                proof {
                    assert(vs@.take(i + 1).drop_last() =~= vs@.take(i as int));
                    assert(vs@.take(i + 1).last() == vs@[i as int]);
                }
                push_string(out, vs[i].0.as_str());
                push_value(out, &vs[i].1);
                i = i + 1;
            }
            proof {
                assert(vs@.take(vs@.len() as int) =~= vs@);
            }
        },
    }
}

/// The flags byte of a parameter block: one bit per present field.
pub open spec fn spec_params_flags(p: QueryParams) -> u8 {
    (if p.values is Some { 0x01u8 } else { 0u8 }) | (if p.values matches Some(qv)
        && qv.spec_with_names() { 0x40u8 } else { 0u8 }) | (if p.page_size is Some { 0x04u8 } else {
        0u8
    }) | (if p.paging_state is Some { 0x08u8 } else { 0u8 }) | (if p.serial_consistency is Some {
        0x10u8
    } else { 0u8 }) | (if p.timestamp is Some { 0x20u8 } else { 0u8 })
}

/// The value section of a parameter block: a two-byte count and the
/// values, where any are bound.
pub open spec fn spec_params_values_part(p: QueryParams) -> Seq<u8> {
    match p.values {
        Some(qv) => spec_u16_be(qv.spec_len() as u16) + spec_values_payload(qv),
        None => Seq::<u8>::empty(),
    }
}

/// The page-size section of a parameter block.
pub open spec fn spec_params_page_part(p: QueryParams) -> Seq<u8> {
    match p.page_size {
        Some(ps) => spec_u32_be(ps as u32),
        None => Seq::<u8>::empty(),
    }
}

/// The paging-state section of a parameter block.
pub open spec fn spec_params_cursor_part(p: QueryParams) -> Seq<u8> {
    match p.paging_state {
        Some(c) => spec_bytes_value(c@),
        None => Seq::<u8>::empty(),
    }
}

/// The serial-consistency section of a parameter block.
pub open spec fn spec_params_serial_part(p: QueryParams) -> Seq<u8> {
    match p.serial_consistency {
        Some(sc) => spec_u16_be(sc.spec_code()),
        None => Seq::<u8>::empty(),
    }
}

/// The timestamp section of a parameter block.
pub open spec fn spec_params_timestamp_part(p: QueryParams) -> Seq<u8> {
    match p.timestamp {
        Some(t) => spec_u64_be(t as u64),
        None => Seq::<u8>::empty(),
    }
}

/// The wire form of a parameter block: consistency, flags, then each
/// present field in protocol order.
pub open spec fn spec_params(p: QueryParams) -> Seq<u8> {
    spec_u16_be(p.consistency.spec_code()) + seq![spec_params_flags(p)]
        + spec_params_values_part(p) + spec_params_page_part(p) + spec_params_cursor_part(p)
        + spec_params_serial_part(p) + spec_params_timestamp_part(p)
}

/// A parameter block fits the wire when its values do and a paging cursor
/// fits its length field.
pub open spec fn spec_params_wf(p: QueryParams) -> bool {
    (match p.values {
        Some(qv) => spec_values_wf(qv),
        None => true,
    }) && (match p.paging_state {
        Some(c) => c@.len() <= i32::MAX,
        None => true,
    })
}

/// Writes a parameter block.
#[verifier::rlimit(100)]
#[verifier::spinoff_prover]
pub fn push_params(out: &mut Vec<u8>, p: &QueryParams)
    requires
        spec_params_wf(*p),
    ensures
        final(out)@ == old(out)@ + spec_params(*p),
{
    let f_values: u8 = if p.values.is_some() {
        0x01
    } else {
        0
    };
    let f_names: u8 = match &p.values {
        Some(qv) => if qv.with_names() {
            0x40
        } else {
            0
        },
        None => 0,
    };
    let f_page: u8 = if p.page_size.is_some() {
        0x04
    } else {
        0
    };
    let f_cursor: u8 = if p.paging_state.is_some() {
        0x08
    } else {
        0
    };
    let f_serial: u8 = if p.serial_consistency.is_some() {
        0x10
    } else {
        0
    };
    let f_ts: u8 = if p.timestamp.is_some() {
        0x20
    } else {
        0
    };
    let flags: u8 = f_values | f_names | f_page | f_cursor | f_serial | f_ts;
    proof {
        assert(flags == spec_params_flags(*p));
    }
    push_u16(out, p.consistency.code());
    out.push(flags);
    proof {
        assert(out@ =~= old(out)@ + spec_u16_be(p.consistency.spec_code()) + seq![
            spec_params_flags(*p),
        ]);
    }
    let ghost mid0 = out@;
    match &p.values {
        Some(qv) => {
            push_u16(out, qv.len() as u16);
            push_values_payload(out, qv);
        },
        None => {},
    }
    proof {
        assert(out@ =~= mid0 + spec_params_values_part(*p));
    }
    let ghost mid1 = out@;
    match &p.page_size {
        Some(ps) => {
            push_u32(out, *ps as u32);
        },
        None => {},
    }
    proof {
        assert(out@ =~= mid1 + spec_params_page_part(*p));
    }
    let ghost mid2 = out@;
    match &p.paging_state {
        Some(c) => {
            push_bytes_value(out, c.as_slice());
        },
        None => {},
    }
    proof {
        assert(out@ =~= mid2 + spec_params_cursor_part(*p));
    }
    let ghost mid3 = out@;
    match &p.serial_consistency {
        Some(sc) => {
            push_u16(out, sc.code());
        },
        None => {},
    }
    proof {
        assert(out@ =~= mid3 + spec_params_serial_part(*p));
    }
    let ghost mid4 = out@;
    match &p.timestamp {
        Some(t) => {
            push_u64(out, *t as u64);
        },
        None => {},
    }
    proof {
        assert(out@ =~= mid4 + spec_params_timestamp_part(*p));
        assert(out@ =~= old(out)@ + spec_params(*p));
    }
}

/// The QUERY body: the query text as a `[long string]`, then the
/// parameter block.
pub open spec fn spec_query_body(query: Seq<char>, p: QueryParams) -> Seq<u8> {
    spec_long_string(query) + spec_params(p)
}

/// Builds a QUERY body.
pub fn build_query_body(query: &str, p: &QueryParams) -> (r: Vec<u8>)
    requires
        encode_utf8(query@).len() <= i32::MAX,
        spec_params_wf(*p),
    ensures
        r@ == spec_query_body(query@, *p),
{
    let mut v: Vec<u8> = Vec::new();
    push_long_string(&mut v, query);
    push_params(&mut v, p);
    proof {
        assert(v@ =~= spec_query_body(query@, *p));
    }
    v
}

/// The PREPARE body: just the query text as a `[long string]`.
pub open spec fn spec_prepare_body(query: Seq<char>) -> Seq<u8> {
    spec_long_string(query)
}

/// Builds a PREPARE body.
pub fn build_prepare_body(query: &str) -> (r: Vec<u8>)
    requires
        encode_utf8(query@).len() <= i32::MAX,
    ensures
        r@ == spec_prepare_body(query@),
{
    let mut v: Vec<u8> = Vec::new();
    push_long_string(&mut v, query);
    proof {
        assert(v@ =~= spec_prepare_body(query@));
    }
    v
}

/// The EXECUTE body: the prepared id as `[short bytes]`, then the
/// parameter block.
pub open spec fn spec_execute_body(id: Seq<u8>, p: QueryParams) -> Seq<u8> {
    spec_short_bytes(id) + spec_params(p)
}

/// Builds an EXECUTE body.
pub fn build_execute_body(id: &Vec<u8>, p: &QueryParams) -> (r: Vec<u8>)
    requires
        id@.len() <= u16::MAX,
        spec_params_wf(*p),
    ensures
        r@ == spec_execute_body(id@, *p),
{
    let mut v: Vec<u8> = Vec::new();
    push_short_bytes(&mut v, id.as_slice());
    push_params(&mut v, p);
    proof {
        assert(v@ =~= spec_execute_body(id@, *p));
    }
    v
}


/// The wire form of one batched statement: a kind byte (`0` CQL text, `1`
/// prepared id), the statement, then its values with their count.
pub open spec fn spec_batch_query(q: BatchQuery) -> Seq<u8> {
    (match q.subject {
        BatchSubject::QueryString(s) => seq![0u8] + spec_long_string(s@),
        BatchSubject::PreparedId(id) => seq![1u8] + spec_short_bytes(id@),
    }) + spec_u16_be(q.values.spec_len() as u16) + spec_values_payload(q.values)
}

/// A batched statement fits the wire when its text or id and its values
/// fit their length fields.
pub open spec fn spec_batch_query_wf(q: BatchQuery) -> bool {
    (match q.subject {
        BatchSubject::QueryString(s) => encode_utf8(s@).len() <= i32::MAX,
        BatchSubject::PreparedId(id) => id@.len() <= u16::MAX,
    }) && spec_values_wf(q.values)
}

/// The concatenated wire forms of a batch's statements.
pub open spec fn spec_batch_queries(qs: Seq<BatchQuery>) -> Seq<u8>
    decreases qs.len(),
{
    if qs.len() == 0 {
        Seq::<u8>::empty()
    } else {
        spec_batch_queries(qs.drop_last()) + spec_batch_query(qs.last())
    }
}

/// The flags byte of a batch: serial consistency and timestamp bits.
pub open spec fn spec_batch_flags(b: QueryBatch) -> u8 {
    (if b.serial_consistency is Some { 0x10u8 } else { 0u8 }) | (if b.timestamp is Some {
        0x20u8
    } else { 0u8 })
}

/// The BATCH body: the batch type, the counted statements, the batch
/// consistency, the flags byte, then the optional serial consistency and
/// timestamp.
pub open spec fn spec_batch_body(b: QueryBatch) -> Seq<u8> {
    seq![b.batch_type.spec_byte()] + spec_u16_be(b.queries@.len() as u16) + spec_batch_queries(
        b.queries@,
    ) + spec_u16_be(b.consistency.spec_code()) + seq![spec_batch_flags(b)] + (match b
        .serial_consistency {
        Some(sc) => spec_u16_be(sc.spec_code()),
        None => Seq::<u8>::empty(),
    }) + (match b.timestamp {
        Some(t) => spec_u64_be(t as u64),
        None => Seq::<u8>::empty(),
    })
}

/// A batch fits the wire when its statement count fits two bytes and each
/// statement does.
pub open spec fn spec_batch_wf(b: QueryBatch) -> bool {
    b.queries@.len() <= u16::MAX && forall|i: int|
        0 <= i < b.queries@.len() ==> spec_batch_query_wf(#[trigger] b.queries@[i])
}

fn push_batch_query(out: &mut Vec<u8>, q: &BatchQuery)
    requires
        spec_batch_query_wf(*q),
    ensures
        final(out)@ == old(out)@ + spec_batch_query(*q),
{
    match &q.subject {
        BatchSubject::QueryString(s) => {
            out.push(0);
            push_long_string(out, s.as_str());
        },
        BatchSubject::PreparedId(id) => {
            out.push(1);
            push_short_bytes(out, id.as_slice());
        },
    }
    push_u16(out, q.values.len() as u16);
    push_values_payload(out, &q.values);
    proof {
        assert(out@ =~= old(out)@ + spec_batch_query(*q));
    }
}

/// Builds a BATCH body.
pub fn build_batch_body(b: &QueryBatch) -> (r: Vec<u8>)
    requires
        spec_batch_wf(*b),
    ensures
        r@ == spec_batch_body(*b),
{
    let mut v: Vec<u8> = Vec::new();
    v.push(b.batch_type.as_byte());
    push_u16(&mut v, b.queries.len() as u16);
    let ghost head = v@;
    let mut i: usize = 0;
    while i < b.queries.len()
        invariant
            i <= b.queries@.len(),
            spec_batch_wf(*b),
            v@ == head + spec_batch_queries(b.queries@.take(i as int)),
        decreases b.queries@.len() - i,
    {
        proof {
            assert(b.queries@.take(i + 1).drop_last() =~= b.queries@.take(i as int));
            assert(b.queries@.take(i + 1).last() == b.queries@[i as int]);
        }
        push_batch_query(&mut v, &b.queries[i]);
        i = i + 1;
    }
    proof {
        assert(b.queries@.take(b.queries@.len() as int) =~= b.queries@);
    }
    let f_serial: u8 = if b.serial_consistency.is_some() {
        0x10
    } else {
        0
    };
    let f_ts: u8 = if b.timestamp.is_some() {
        0x20
    } else {
        0
    };
    let flags: u8 = f_serial | f_ts;
    proof {
        assert(flags == spec_batch_flags(*b));
    }
    push_u16(&mut v, b.consistency.code());
    v.push(flags);
    match &b.serial_consistency {
        Some(sc) => {
            push_u16(&mut v, sc.code());
        },
        None => {},
    }
    match &b.timestamp {
        Some(t) => {
            push_u64(&mut v, *t as u64);
        },
        None => {},
    }
    proof {
        assert(v@ =~= spec_batch_body(*b));
    }
    v
}


/// Two paged parameter blocks whose cursors hold the same bytes have the
/// same wire form and the same well-formedness, whatever vessels carry
/// the bytes.
pub proof fn lemma_paged_params_cursor_view(
    query: Seq<char>,
    page_size: i32,
    c1: Option<Vec<u8>>,
    c2: Option<Vec<u8>>,
)
    requires
        c1 is Some <==> c2 is Some,
        c1 matches Some(v1) ==> Some(v1@) == (match c2 {
            Some(v2) => Some(v2@),
            None => None,
        }),
    ensures
        spec_params(QueryParams::spec_paged(page_size, c1)) == spec_params(
            QueryParams::spec_paged(page_size, c2),
        ),
        spec_params_wf(QueryParams::spec_paged(page_size, c1)) == spec_params_wf(
            QueryParams::spec_paged(page_size, c2),
        ),
        spec_query_body(query, QueryParams::spec_paged(page_size, c1)) == spec_query_body(
            query,
            QueryParams::spec_paged(page_size, c2),
        ),
{
    let p1 = QueryParams::spec_paged(page_size, c1);
    let p2 = QueryParams::spec_paged(page_size, c2);
    assert(spec_params_flags(p1) == spec_params_flags(p2));
    assert(spec_params_cursor_part(p1) == spec_params_cursor_part(p2));
    assert(spec_params(p1) == spec_params(p2));
}

/// The same, for the parameter block of an EXECUTE.
pub proof fn lemma_paged_params_cursor_view_execute(
    id: Seq<u8>,
    page_size: i32,
    c1: Option<Vec<u8>>,
    c2: Option<Vec<u8>>,
)
    requires
        c1 is Some <==> c2 is Some,
        c1 matches Some(v1) ==> Some(v1@) == (match c2 {
            Some(v2) => Some(v2@),
            None => None,
        }),
    ensures
        spec_params_wf(QueryParams::spec_paged(page_size, c1)) == spec_params_wf(
            QueryParams::spec_paged(page_size, c2),
        ),
        spec_execute_body(id, QueryParams::spec_paged(page_size, c1)) == spec_execute_body(
            id,
            QueryParams::spec_paged(page_size, c2),
        ),
{
    lemma_paged_params_cursor_view(Seq::<char>::empty(), page_size, c1, c2);
}

} // verus!
