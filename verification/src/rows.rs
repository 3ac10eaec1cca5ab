//! The rows RESULT body, parsed whole by this crate's own verified
//! grammar.
//!
//! A rows body is `[kind=2:4][flags:4][columns:4]`, then a `[bytes]`
//! paging state where the more-pages flag bit is set, the keyspace and
//! table `[string]` pair where the global-table-spec bit is set, one
//! column spec per column unless the no-metadata bit is set, a row count,
//! and `rows × columns` cells, each a `[bytes]` value whose negative
//! length means null.  A column spec is the per-column keyspace and table
//! pair (absent under a global spec), the column name, and the column's
//! type: a two-byte id, followed for collection, tuple and user types by
//! nested type options.  Cell values are opaque bytes; the types are read
//! only to find where the specs end.
//!
//! The parse is total: every byte string either yields a page or is
//! refused; nothing panics.  Type options nested deeper than
//! [`spec_max_type_depth`] levels are refused — no real schema comes
//! anywhere near it, and the bound keeps the walk's recursion shallow.

use vstd::prelude::*;

use crate::body::spec_read_u16_at;
use crate::body::spec_read_u32_at;
use crate::body::spec_skip_string;
use crate::body::read_u16_at;
use crate::body::read_u32_at;
use crate::body::skip_string;

verus! {

/// How deep type options may nest.
pub open spec fn spec_max_type_depth() -> nat {
    64
}

/// Whether a type id is one of the primitive types, which carry no
/// nested option.
pub open spec fn spec_primitive_type(id: u16) -> bool {
    0x0001 <= id <= 0x0014
}

/// The position just past the column type option at `pos`: a two-byte
/// id, then, by the id, a custom-type name string, the element types of
/// a list, set, map or tuple, or the named field types of a user type.
/// `None` where the bytes end early, the id is unknown, or the nesting
/// exceeds the remaining `fuel`.
pub open spec fn spec_skip_coltype(b: Seq<u8>, pos: int, fuel: nat) -> Option<int>
    decreases fuel, 0nat, 0nat,
{
    match spec_read_u16_at(b, pos) {
        Some(id) => {
            let p = pos + 2;
            if spec_primitive_type(id) {
                Some(p)
            } else if id == 0x0000 {
                spec_skip_string(b, p)
            } else if id == 0x0020 || id == 0x0022 {
                if fuel == 0 {
                    None
                } else {
                    spec_skip_coltype(b, p, (fuel - 1) as nat)
                }
            } else if id == 0x0021 {
                if fuel == 0 {
                    None
                } else {
                    match spec_skip_coltype(b, p, (fuel - 1) as nat) {
                        Some(q) => spec_skip_coltype(b, q, (fuel - 1) as nat),
                        None => None,
                    }
                }
            } else if id == 0x0030 {
                if fuel == 0 {
                    None
                } else {
                    match spec_skip_string(b, p) {
                        Some(p1) => match spec_skip_string(b, p1) {
                            Some(p2) => match spec_read_u16_at(b, p2) {
                                Some(n) => spec_skip_udt_fields(
                                    b,
                                    p2 + 2,
                                    n as nat,
                                    (fuel - 1) as nat,
                                ),
                                None => None,
                            },
                            None => None,
                        },
                        None => None,
                    }
                }
            } else if id == 0x0031 {
                if fuel == 0 {
                    None
                } else {
                    match spec_read_u16_at(b, p) {
                        Some(n) => spec_skip_type_list(b, p + 2, n as nat, (fuel - 1) as nat),
                        None => None,
                    }
                }
            } else {
                None
            }
        },
        None => None,
    }
}

/// The position just past `n` named field types of a user type.
pub open spec fn spec_skip_udt_fields(b: Seq<u8>, pos: int, n: nat, fuel: nat) -> Option<int>
    decreases fuel, n, 1nat,
{
    if n == 0 {
        Some(pos)
    } else {
        match spec_skip_string(b, pos) {
            Some(p1) => match spec_skip_coltype(b, p1, fuel) {
                Some(p2) => spec_skip_udt_fields(b, p2, (n - 1) as nat, fuel),
                None => None,
            },
            None => None,
        }
    }
}

/// The position just past `n` element types of a tuple.
pub open spec fn spec_skip_type_list(b: Seq<u8>, pos: int, n: nat, fuel: nat) -> Option<int>
    decreases fuel, n, 1nat,
{
    if n == 0 {
        Some(pos)
    } else {
        match spec_skip_coltype(b, pos, fuel) {
            Some(q) => spec_skip_type_list(b, q, (n - 1) as nat, fuel),
            None => None,
        }
    }
}

/// The position just past `n` column specs.  Under a global table spec a
/// column spec is the column name and its type; otherwise the per-column
/// keyspace and table strings come first.
pub open spec fn spec_skip_colspecs(b: Seq<u8>, pos: int, n: nat, global: bool) -> Option<int>
    decreases n,
{
    if n == 0 {
        Some(pos)
    } else {
        let named = if global {
            Some(pos)
        } else {
            match spec_skip_string(b, pos) {
                Some(p1) => spec_skip_string(b, p1),
                None => None,
            }
        };
        match named {
            Some(p2) => match spec_skip_string(b, p2) {
                Some(p3) => match spec_skip_coltype(b, p3, spec_max_type_depth()) {
                    Some(p4) => spec_skip_colspecs(b, p4, (n - 1) as nat, global),
                    None => None,
                },
                None => None,
            },
            None => None,
        }
    }
}

/// One cell of a result row: the column's bytes, or an explicit null.
#[derive(Clone, Debug, PartialEq)]
pub enum CellValue {
    Bytes(Vec<u8>),
    Null,
}

/// The mathematical value of a cell.
pub ghost enum CellView {
    Bytes(Seq<u8>),
    Null,
}

impl View for CellValue {
    type V = CellView;

    open spec fn view(&self) -> CellView {
        match self {
            CellValue::Bytes(b) => CellView::Bytes(b@),
            CellValue::Null => CellView::Null,
        }
    }
}

/// One decoded result row: its cells in column order.
pub type Row = Vec<CellValue>;

/// The cell at `pos`: a `[bytes]` value, null where the length is
/// negative.
pub open spec fn spec_read_cell(b: Seq<u8>, pos: int) -> Option<(CellView, int)> {
    match spec_read_u32_at(b, pos) {
        Some(len) => {
            if len >= 0x8000_0000 {
                Some((CellView::Null, pos + 4))
            } else if pos + 4 + len <= b.len() {
                Some((CellView::Bytes(b.subrange(pos + 4, pos + 4 + len)), pos + 4 + len))
            } else {
                None
            }
        },
        None => None,
    }
}

/// `n` cells starting at `pos`, appended to `acc`.
pub open spec fn spec_read_cells(acc: Seq<CellView>, b: Seq<u8>, pos: int, n: nat) -> Option<
    (Seq<CellView>, int),
>
    decreases n,
{
    if n == 0 {
        Some((acc, pos))
    } else {
        match spec_read_cell(b, pos) {
            Some((c, q)) => spec_read_cells(acc.push(c), b, q, (n - 1) as nat),
            None => None,
        }
    }
}

/// `rows` rows of `cols` cells each starting at `pos`, appended to
/// `acc`.
pub open spec fn spec_read_rows(
    acc: Seq<Seq<CellView>>,
    b: Seq<u8>,
    pos: int,
    rows: nat,
    cols: nat,
) -> Option<(Seq<Seq<CellView>>, int)>
    decreases rows,
{
    if rows == 0 {
        Some((acc, pos))
    } else {
        match spec_read_cells(Seq::empty(), b, pos, cols) {
            Some((r, q)) => spec_read_rows(acc.push(r), b, q, (rows - 1) as nat, cols),
            None => None,
        }
    }
}

/// The mathematical value of a whole rows page.
pub ghost struct RowsPageView {
    pub has_more: bool,
    pub cursor: Option<Seq<u8>>,
    pub rows: Seq<Seq<CellView>>,
}

/// The rows-metadata flag bits: more pages, global table spec, no
/// metadata.
pub open spec fn spec_more_pages_bit() -> u32 {
    2
}

pub open spec fn spec_global_spec_bit() -> u32 {
    1
}

pub open spec fn spec_no_metadata_bit() -> u32 {
    4
}

/// The paging state section: a `[bytes]` value whose negative length
/// means the server issued no cursor.  Yields the cursor and the
/// position after it.
pub open spec fn spec_read_cursor(b: Seq<u8>, pos: int) -> Option<(Option<Seq<u8>>, int)> {
    match spec_read_u32_at(b, pos) {
        Some(len) => {
            if len >= 0x8000_0000 {
                Some((None, pos + 4))
            } else if pos + 4 + len <= b.len() {
                Some((Some(b.subrange(pos + 4, pos + 4 + len)), pos + 4 + len))
            } else {
                None
            }
        },
        None => None,
    }
}

/// The page a rows RESULT body denotes, if it is one: the more-pages
/// flag, the cursor where one was issued, and every row's cells.  `None`
/// where the body is not a rows result or is malformed; trailing bytes
/// after the last cell are ignored.  Negative column or row counts are
/// refused.
pub open spec fn spec_rows_page(b: Seq<u8>) -> Option<RowsPageView> {
    match (spec_read_u32_at(b, 0), spec_read_u32_at(b, 4), spec_read_u32_at(b, 8)) {
        (Some(kind), Some(flags), Some(cols)) => {
            if kind != 2 || cols >= 0x8000_0000 {
                None
            } else {
                let cursor_part = if flags & spec_more_pages_bit() != 0 {
                    spec_read_cursor(b, 12)
                } else {
                    Some((None, 12))
                };
                match cursor_part {
                    Some((cursor, p0)) => {
                        let global = flags & spec_global_spec_bit() != 0;
                        let named_part = if global {
                            match spec_skip_string(b, p0) {
                                Some(p1) => spec_skip_string(b, p1),
                                None => None,
                            }
                        } else {
                            Some(p0)
                        };
                        match named_part {
                            Some(p2) => {
                                let specs_part = if flags & spec_no_metadata_bit() != 0 {
                                    Some(p2)
                                } else {
                                    spec_skip_colspecs(b, p2, cols as nat, global)
                                };
                                match specs_part {
                                    Some(p3) => match spec_read_u32_at(b, p3) {
                                        Some(row_count) => {
                                            if row_count >= 0x8000_0000 {
                                                None
                                            } else {
                                                match spec_read_rows(
                                                    Seq::empty(),
                                                    b,
                                                    p3 + 4,
                                                    row_count as nat,
                                                    cols as nat,
                                                ) {
                                                    Some((rows, _)) => Some(
                                                        RowsPageView {
                                                            has_more: flags
                                                                & spec_more_pages_bit() != 0,
                                                            cursor,
                                                            rows,
                                                        },
                                                    ),
                                                    None => None,
                                                }
                                            }
                                        },
                                        None => None,
                                    },
                                    None => None,
                                }
                            },
                            None => None,
                        }
                    },
                    None => None,
                }
            }
        },
        _ => None,
    }
}

/// The matrix of cell views a decoded page holds.
pub open spec fn spec_rows_views(rows: Vec<Row>) -> Seq<Seq<CellView>> {
    Seq::new(rows@.len(), |i: int| Seq::new(rows@[i]@.len(), |j: int| rows@[i]@[j]@))
}

/// A whole decoded rows page.
pub struct RowsPage {
    /// Whether the server reports further pages.
    pub has_more: bool,
    /// The cursor to resume from, if the server issued one.
    pub cursor: Option<Vec<u8>>,
    /// The rows, each a vector of cells in column order.
    pub rows: Vec<Row>,
}

fn skip_coltype(b: &[u8], pos: usize, fuel: usize) -> (r: Option<usize>)
    requires
        pos <= b@.len(),
    ensures
        r is Some <==> spec_skip_coltype(b@, pos as int, fuel as nat) is Some,
        r matches Some(q) ==> Some(q as int) == spec_skip_coltype(b@, pos as int, fuel as nat)
            && q <= b@.len(),
    decreases fuel, 0nat, 0nat,
{
    let total = b.len();
    let id = match read_u16_at(b, pos) {
        Some(id) => id,
        None => {
            return None;
        },
    };
    proof {
        assert(pos + 2 <= total);
    }
    let p = pos + 2;
    if 0x0001 <= id && id <= 0x0014 {
        Some(p)
    } else if id == 0x0000 {
        skip_string(b, p)
    } else if id == 0x0020 || id == 0x0022 {
        if fuel == 0 {
            None
        } else {
            skip_coltype(b, p, fuel - 1)
        }
    } else if id == 0x0021 {
        if fuel == 0 {
            None
        } else {
            match skip_coltype(b, p, fuel - 1) {
                Some(q) => skip_coltype(b, q, fuel - 1),
                None => None,
            }
        }
    } else if id == 0x0030 {
        if fuel == 0 {
            None
        } else {
            let p1 = match skip_string(b, p) {
                Some(p1) => p1,
                None => {
                    return None;
                },
            };
            let p2 = match skip_string(b, p1) {
                Some(p2) => p2,
                None => {
                    return None;
                },
            };
            match read_u16_at(b, p2) {
                Some(n) => {
                    proof {
                        assert(p2 + 2 <= total);
                    }
                    skip_udt_fields(b, p2 + 2, n as usize, fuel - 1)
                },
                None => None,
            }
        }
    } else if id == 0x0031 {
        if fuel == 0 {
            None
        } else {
            match read_u16_at(b, p) {
                Some(n) => {
                    proof {
                        assert(p + 2 <= total);
                    }
                    skip_type_list(b, p + 2, n as usize, fuel - 1)
                },
                None => None,
            }
        }
    } else {
        None
    }
}

fn skip_udt_fields(b: &[u8], pos: usize, n: usize, fuel: usize) -> (r: Option<usize>)
    requires
        pos <= b@.len(),
    ensures
        r is Some <==> spec_skip_udt_fields(b@, pos as int, n as nat, fuel as nat) is Some,
        r matches Some(q) ==> Some(q as int) == spec_skip_udt_fields(
            b@,
            pos as int,
            n as nat,
            fuel as nat,
        ) && q <= b@.len(),
    decreases fuel, n, 1nat,
{
    if n == 0 {
        Some(pos)
    } else {
        let p1 = match skip_string(b, pos) {
            Some(p1) => p1,
            None => {
                return None;
            },
        };
        match skip_coltype(b, p1, fuel) {
            Some(p2) => skip_udt_fields(b, p2, n - 1, fuel),
            None => None,
        }
    }
}

fn skip_type_list(b: &[u8], pos: usize, n: usize, fuel: usize) -> (r: Option<usize>)
    requires
        pos <= b@.len(),
    ensures
        r is Some <==> spec_skip_type_list(b@, pos as int, n as nat, fuel as nat) is Some,
        r matches Some(q) ==> Some(q as int) == spec_skip_type_list(
            b@,
            pos as int,
            n as nat,
            fuel as nat,
        ) && q <= b@.len(),
    decreases fuel, n, 1nat,
{
    if n == 0 {
        Some(pos)
    } else {
        match skip_coltype(b, pos, fuel) {
            Some(q) => skip_type_list(b, q, n - 1, fuel),
            None => None,
        }
    }
}

fn skip_colspecs(b: &[u8], pos: usize, n: usize, global: bool) -> (r: Option<usize>)
    requires
        pos <= b@.len(),
    ensures
        r is Some <==> spec_skip_colspecs(b@, pos as int, n as nat, global) is Some,
        r matches Some(q) ==> Some(q as int) == spec_skip_colspecs(
            b@,
            pos as int,
            n as nat,
            global,
        ) && q <= b@.len(),
{
    let mut cur: usize = pos;
    let mut left: usize = n;
    loop
        invariant
            cur <= b@.len(),
            left <= n,
            spec_skip_colspecs(b@, pos as int, n as nat, global) == spec_skip_colspecs(
                b@,
                cur as int,
                left as nat,
                global,
            ),
        decreases left,
    {
        if left == 0 {
            return Some(cur);
        }
        let p2 = if global {
            cur
        } else {
            let p1 = match skip_string(b, cur) {
                Some(p1) => p1,
                None => {
                    return None;
                },
            };
            match skip_string(b, p1) {
                Some(p2) => p2,
                None => {
                    return None;
                },
            }
        };
        let p3 = match skip_string(b, p2) {
            Some(p3) => p3,
            None => {
                return None;
            },
        };
        let p4 = match skip_coltype(b, p3, 64) {
            Some(p4) => p4,
            None => {
                return None;
            },
        };
        cur = p4;
        left = left - 1;
    }
}

/// The views of the cells read so far.
pub open spec fn spec_cell_views(cells: Vec<CellValue>) -> Seq<CellView> {
    Seq::new(cells@.len(), |i: int| cells@[i]@)
}

fn read_cell(b: &[u8], pos: usize) -> (r: Option<(CellValue, usize)>)
    requires
        pos <= b@.len(),
    ensures
        r is Some <==> spec_read_cell(b@, pos as int) is Some,
        r matches Some((c, q)) ==> spec_read_cell(b@, pos as int) matches Some((cv, qq)) && c@
            == cv && q == qq && q <= b@.len(),
{
    let total = b.len();
    let len = match read_u32_at(b, pos) {
        Some(len) => len,
        None => {
            return None;
        },
    };
    proof {
        assert(pos + 4 <= total);
    }
    if len >= 0x8000_0000 {
        return Some((CellValue::Null, pos + 4));
    }
    let len = len as usize;
    if b.len() - pos - 4 < len {
        return None;
    }
    let end = pos + 4 + len;
    let bytes = vstd::slice::slice_to_vec(vstd::slice::slice_subrange(b, pos + 4, end));
    Some((CellValue::Bytes(bytes), end))
}

fn read_cells(b: &[u8], pos: usize, n: usize) -> (r: Option<(Vec<CellValue>, usize)>)
    requires
        pos <= b@.len(),
    ensures
        r is Some <==> spec_read_cells(Seq::empty(), b@, pos as int, n as nat) is Some,
        r matches Some((cells, q)) ==> spec_read_cells(Seq::empty(), b@, pos as int, n as nat)
            matches Some((cvs, qq)) && spec_cell_views(cells) == cvs && q == qq && q <= b@.len(),
{
    let mut cells: Vec<CellValue> = Vec::new();
    let mut cur: usize = pos;
    let mut left: usize = n;
    proof {
        assert(spec_cell_views(cells) =~= Seq::<CellView>::empty());
    }
    loop
        invariant
            cur <= b@.len(),
            spec_read_cells(Seq::empty(), b@, pos as int, n as nat) == spec_read_cells(
                spec_cell_views(cells),
                b@,
                cur as int,
                left as nat,
            ),
        decreases left,
    {
        if left == 0 {
            return Some((cells, cur));
        }
        let (c, q) = match read_cell(b, cur) {
            Some(pair) => pair,
            None => {
                return None;
            },
        };
        let ghost old_views = spec_cell_views(cells);
        let ghost cv = c@;
        cells.push(c);
        proof {
            assert(spec_cell_views(cells) =~= old_views.push(cv));
        }
        cur = q;
        left = left - 1;
    }
}

fn read_rows(b: &[u8], pos: usize, rows: usize, cols: usize) -> (r: Option<(Vec<Row>, usize)>)
    requires
        pos <= b@.len(),
    ensures
        r is Some <==> spec_read_rows(Seq::empty(), b@, pos as int, rows as nat, cols as nat)
            is Some,
        r matches Some((m, q)) ==> spec_read_rows(
            Seq::empty(),
            b@,
            pos as int,
            rows as nat,
            cols as nat,
        ) matches Some((mvs, qq)) && spec_rows_views(m) == mvs && q == qq,
{
    let mut matrix: Vec<Row> = Vec::new();
    let mut cur: usize = pos;
    let mut left: usize = rows;
    proof {
        assert(spec_rows_views(matrix) =~= Seq::<Seq<CellView>>::empty());
    }
    loop
        invariant
            cur <= b@.len(),
            spec_read_rows(Seq::empty(), b@, pos as int, rows as nat, cols as nat)
                == spec_read_rows(spec_rows_views(matrix), b@, cur as int, left as nat, cols as nat),
        decreases left,
    {
        if left == 0 {
            return Some((matrix, cur));
        }
        let (cells, q) = match read_cells(b, cur, cols) {
            Some(pair) => pair,
            None => {
                return None;
            },
        };
        let ghost old_views = spec_rows_views(matrix);
        let ghost rv = spec_cell_views(cells);
        matrix.push(cells);
        proof {
            assert(spec_rows_views(matrix) =~= old_views.push(rv));
        }
        cur = q;
        left = left - 1;
    }
}

fn read_cursor(b: &[u8], pos: usize) -> (r: Option<(Option<Vec<u8>>, usize)>)
    requires
        pos <= b@.len(),
    ensures
        r is Some <==> spec_read_cursor(b@, pos as int) is Some,
        r matches Some((c, q)) ==> spec_read_cursor(b@, pos as int) matches Some((cv, qq)) && q
            == qq && q <= b@.len() && (c is Some <==> cv is Some) && (c matches Some(bytes)
            ==> Some(bytes@) == cv),
{
    let total = b.len();
    let len = match read_u32_at(b, pos) {
        Some(len) => len,
        None => {
            return None;
        },
    };
    proof {
        assert(pos + 4 <= total);
    }
    if len >= 0x8000_0000 {
        return Some((None, pos + 4));
    }
    let len = len as usize;
    if b.len() - pos - 4 < len {
        return None;
    }
    let end = pos + 4 + len;
    let bytes = vstd::slice::slice_to_vec(vstd::slice::slice_subrange(b, pos + 4, end));
    Some((Some(bytes), end))
}

/// Parses a rows RESULT body into its page: the more-pages flag, the
/// cursor if one was issued, and every row's cells, exactly as
/// [`spec_rows_page`] reads them.
pub fn parse_rows_page(body: &Vec<u8>) -> (r: Option<RowsPage>)
    ensures
        r is Some <==> spec_rows_page(body@) is Some,
        r matches Some(p) ==> spec_rows_page(body@) matches Some(v) && p.has_more == v.has_more
            && (p.cursor is Some <==> v.cursor is Some) && (p.cursor matches Some(c) ==> Some(c@)
            == v.cursor) && spec_rows_views(p.rows) == v.rows,
{
    let b = body.as_slice();
    let total = b.len();
    let kind = match read_u32_at(b, 0) {
        Some(k) => k,
        None => {
            return None;
        },
    };
    let flags = match read_u32_at(b, 4) {
        Some(f) => f,
        None => {
            return None;
        },
    };
    let cols = match read_u32_at(b, 8) {
        Some(c) => c,
        None => {
            return None;
        },
    };
    if kind != 2 || cols >= 0x8000_0000 {
        return None;
    }
    let (cursor, p0) = if flags & 2 != 0 {
        match read_cursor(b, 12) {
            Some(pair) => pair,
            None => {
                return None;
            },
        }
    } else {
        (None, 12)
    };
    let global = flags & 1 != 0;
    let p2 = if global {
        let p1 = match skip_string(b, p0) {
            Some(p1) => p1,
            None => {
                return None;
            },
        };
        match skip_string(b, p1) {
            Some(p2) => p2,
            None => {
                return None;
            },
        }
    } else {
        p0
    };
    let p3 = if flags & 4 != 0 {
        p2
    } else {
        match skip_colspecs(b, p2, cols as usize, global) {
            Some(p3) => p3,
            None => {
                return None;
            },
        }
    };
    let row_count = match read_u32_at(b, p3) {
        Some(rc) => rc,
        None => {
            return None;
        },
    };
    if row_count >= 0x8000_0000 {
        return None;
    }
    proof {
        assert(p3 + 4 <= total);
    }
    match read_rows(b, p3 + 4, row_count as usize, cols as usize) {
        Some((rows, _)) => Some(RowsPage { has_more: flags & 2 != 0, cursor, rows }),
        None => None,
    }
}

} // verus!
