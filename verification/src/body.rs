//! Readers for the small slices of response bodies this crate interprets.
//!
//! The mechanism name of an AUTHENTICATE body, the code and message of an
//! ERROR body, the id of a prepared statement, and the shared primitive
//! readers the rows parser builds on.  Each reader has a spec twin that
//! fixes what bytes it accepts and what it extracts.

use vstd::prelude::*;

use crate::codec::spec_be_u16;
use crate::codec::spec_be_u32;
use crate::codec::be_u16;
use crate::codec::be_u32;

verus! {

/// Whether two byte strings are equal.
pub fn bytes_eq(a: &[u8], b: &[u8]) -> (r: bool)
    ensures
        r == (a@ == b@),
{
    if a.len() != b.len() {
        proof {
            assert(a@.len() != b@.len());
        }
        return false;
    }
    let mut i: usize = 0;
    while i < a.len()
        invariant
            i <= a@.len(),
            a@.len() == b@.len(),
            forall|j: int| 0 <= j < i ==> a@[j] == b@[j],
        decreases a@.len() - i,
    {
        if a[i] != b[i] {
            proof {
                assert(a@ != b@);
            }
            return false;
        }
        i = i + 1;
    }
    proof {
        assert(a@ =~= b@);
    }
    true
}

/// The `[string]` at a position of a buffer: a two-byte big-endian length
/// and that many bytes.  `None` where the buffer is too short.
pub open spec fn spec_read_string_at(b: Seq<u8>, pos: int) -> Option<(Seq<u8>, int)> {
    if pos + 2 <= b.len() {
        let len = spec_be_u16(b[pos], b[pos + 1]) as int;
        if pos + 2 + len <= b.len() {
            Some((b.subrange(pos + 2, pos + 2 + len), pos + 2 + len))
        } else {
            None
        }
    } else {
        None
    }
}

/// Reads the `[string]` at a position, returning its bytes and the position
/// after it.
pub fn read_string_at(b: &[u8], pos: usize) -> (r: Option<(Vec<u8>, usize)>)
    requires
        pos <= b@.len(),
    ensures
        r is Some <==> spec_read_string_at(b@, pos as int) is Some,
        r matches Some((s, next)) ==> spec_read_string_at(b@, pos as int) matches Some((ss, nn))
            && s@ == ss && next == nn,
{
    if b.len() - pos < 2 {
        return None;
    }
    let len = be_u16(b[pos], b[pos + 1]) as usize;
    if b.len() - pos - 2 < len {
        return None;
    }
    let next = pos + 2 + len;
    let s = vstd::slice::slice_to_vec(vstd::slice::slice_subrange(b, pos + 2, next));
    Some((s, next))
}

/// The big-endian 16-bit integer at a position.  `None` where fewer than
/// two bytes remain.
pub open spec fn spec_read_u16_at(b: Seq<u8>, pos: int) -> Option<u16> {
    if pos + 2 <= b.len() {
        Some(spec_be_u16(b[pos], b[pos + 1]))
    } else {
        None
    }
}

pub fn read_u16_at(b: &[u8], pos: usize) -> (r: Option<u16>)
    requires
        pos <= b@.len(),
    ensures
        r == spec_read_u16_at(b@, pos as int),
{
    if b.len() - pos < 2 {
        return None;
    }
    Some(be_u16(b[pos], b[pos + 1]))
}

/// The position just past the `[string]` at a position, without copying
/// its bytes.
pub open spec fn spec_skip_string(b: Seq<u8>, pos: int) -> Option<int> {
    match spec_read_string_at(b, pos) {
        Some((_, next)) => Some(next),
        None => None,
    }
}

pub fn skip_string(b: &[u8], pos: usize) -> (r: Option<usize>)
    requires
        pos <= b@.len(),
    ensures
        r is Some <==> spec_skip_string(b@, pos as int) is Some,
        r matches Some(next) ==> Some(next as int) == spec_skip_string(b@, pos as int) && next
            <= b@.len(),
{
    if b.len() - pos < 2 {
        return None;
    }
    let len = be_u16(b[pos], b[pos + 1]) as usize;
    if b.len() - pos - 2 < len {
        return None;
    }
    Some(pos + 2 + len)
}

/// The big-endian 32-bit integer at a position, read as unsigned.  `None`
/// where fewer than four bytes remain.
pub open spec fn spec_read_u32_at(b: Seq<u8>, pos: int) -> Option<u32> {
    if pos + 4 <= b.len() {
        Some(spec_be_u32(b[pos], b[pos + 1], b[pos + 2], b[pos + 3]))
    } else {
        None
    }
}

pub fn read_u32_at(b: &[u8], pos: usize) -> (r: Option<u32>)
    requires
        pos <= b@.len(),
    ensures
        r == spec_read_u32_at(b@, pos as int),
{
    if b.len() - pos < 4 {
        return None;
    }
    Some(be_u32(b[pos], b[pos + 1], b[pos + 2], b[pos + 3]))
}

/// The mechanism name a server sent in an AUTHENTICATE body: the UTF-8
/// bytes of the leading `[string]`.
pub open spec fn spec_auth_mechanism(body: Seq<u8>) -> Option<Seq<u8>> {
    match spec_read_string_at(body, 0) {
        Some((s, _)) => Some(s),
        None => None,
    }
}

/// Reads the mechanism name out of an AUTHENTICATE body.
pub fn parse_auth_mechanism(body: &Vec<u8>) -> (r: Option<Vec<u8>>)
    ensures
        r is Some <==> spec_auth_mechanism(body@) is Some,
        r matches Some(s) ==> Some(s@) == spec_auth_mechanism(body@),
{
    match read_string_at(body.as_slice(), 0) {
        Some((s, _)) => Some(s),
        None => None,
    }
}

/// What an ERROR body carries: the error code (read as the unsigned form
/// of the wire's 32-bit integer) and the message's UTF-8 bytes.
pub open spec fn spec_error_body(body: Seq<u8>) -> Option<(u32, Seq<u8>)> {
    match spec_read_u32_at(body, 0) {
        Some(code) => match spec_read_string_at(body, 4) {
            Some((msg, _)) => Some((code, msg)),
            None => None,
        },
        None => None,
    }
}

/// Reads the code and message of an ERROR body.
pub fn parse_error_body(body: &Vec<u8>) -> (r: Option<(u32, Vec<u8>)>)
    ensures
        r is Some <==> spec_error_body(body@) is Some,
        r matches Some((code, msg)) ==> Some((code, msg@)) == spec_error_body(body@),
{
    let code = match read_u32_at(body.as_slice(), 0) {
        Some(c) => c,
        None => {
            return None;
        },
    };
    match read_string_at(body.as_slice(), 4) {
        Some((msg, _)) => Some((code, msg)),
        None => None,
    }
}

/// The RESULT kind that introduces a prepared body.
pub open spec fn spec_prepared_kind() -> u32 {
    4
}

/// The prepared-statement id of a prepared RESULT body:
/// `[kind:4][short bytes id]` with kind the prepared kind.
pub open spec fn spec_prepared_id(body: Seq<u8>) -> Option<Seq<u8>> {
    match spec_read_u32_at(body, 0) {
        Some(kind) => {
            if kind != spec_prepared_kind() {
                None
            } else {
                match spec_read_string_at(body, 4) {
                    Some((id, _)) => Some(id),
                    None => None,
                }
            }
        },
        None => None,
    }
}

/// Reads the prepared-statement id out of a prepared RESULT body.
pub fn parse_prepared_id(body: &Vec<u8>) -> (r: Option<Vec<u8>>)
    ensures
        r is Some <==> spec_prepared_id(body@) is Some,
        r matches Some(id) ==> Some(id@) == spec_prepared_id(body@),
{
    let kind = match read_u32_at(body.as_slice(), 0) {
        Some(k) => k,
        None => {
            return None;
        },
    };
    if kind != 4 {
        return None;
    }
    match read_string_at(body.as_slice(), 4) {
        Some((id, _)) => Some(id),
        None => None,
    }
}

} // verus!
