//! The mathematical model of the record-slicing and counting engine.
//!
//! A record is a sequence of fields, a field a sequence of characters. All
//! contracts of the executable operations are stated over these functions.

use vstd::prelude::*;

use crate::CzvError;

verus! {

/// The records an operation works over: every physical record when the header
/// row is included, otherwise everything after the first record.
pub open spec fn data_records(
    all: Seq<Seq<Seq<char>>>,
    include_header_row: bool,
) -> Seq<Seq<Seq<char>>> {
    if include_header_row || all.len() == 0 {
        all
    } else {
        all.subrange(1, all.len() as int)
    }
}

/// The row count: how many data records the text holds under the given header
/// policy.
pub open spec fn spec_row_count(all: Seq<Seq<Seq<char>>>, include_header_row: bool) -> nat {
    data_records(all, include_header_row).len()
}

/// The column count: the number of fields of the first physical record, which
/// is structural and independent of the header policy.
pub open spec fn spec_column_count(all: Seq<Seq<Seq<char>>>) -> nat {
    if all.len() == 0 {
        0
    } else {
        all[0].len()
    }
}

/// A non-negative bound stands as is; a negative one counts back from the
/// total, so that -1 names the last record.
pub open spec fn normalize(value: int, total: int) -> int {
    if value >= 0 {
        value
    } else {
        total + value
    }
}

/// How a signed range bound (start, end or length) resolves against the
/// record total: a value beyond the total, or a negative value that reaches
/// before record zero, is a range error. A bound may equal the total, which
/// names the position just past the last record.
pub open spec fn resolve_bound(value: int, total: int) -> Result<int, CzvError> {
    if value > total {
        Err(CzvError::Range)
    } else if normalize(value, total) < 0 {
        Err(CzvError::Range)
    } else {
        Ok(normalize(value, total))
    }
}

/// How a signed single-record index resolves: it gets no declared range
/// check, so one that does not name an existing record after normalization
/// surfaces as an extraction failure.
pub open spec fn resolve_index(value: int, total: int) -> Result<int, CzvError> {
    if 0 <= normalize(value, total) < total {
        Ok(normalize(value, total))
    } else {
        Err(CzvError::Extraction)
    }
}

/// The comma-join of the first `n` fields of a record.
pub open spec fn join_fields_prefix(rec: Seq<Seq<char>>, n: int) -> Seq<char>
    decreases n,
{
    if n <= 0 {
        Seq::empty()
    } else if n == 1 {
        rec[0]
    } else {
        join_fields_prefix(rec, n - 1) + seq![','] + rec[n - 1]
    }
}

/// One record serialized as text: its fields joined with commas.
pub open spec fn join_fields(rec: Seq<Seq<char>>) -> Seq<char> {
    join_fields_prefix(rec, rec.len() as int)
}

/// The newline-join of the serialized forms of the first `n` records.
pub open spec fn join_records_prefix(rs: Seq<Seq<Seq<char>>>, n: int) -> Seq<char>
    decreases n,
{
    if n <= 0 {
        Seq::empty()
    } else if n == 1 {
        join_fields(rs[0])
    } else {
        join_records_prefix(rs, n - 1) + seq!['\n'] + join_fields(rs[n - 1])
    }
}

/// A run of records serialized as one text blob: fields comma-joined per
/// record, records newline-joined, no trailing newline.
pub open spec fn join_records(rs: Seq<Seq<Seq<char>>>) -> Seq<char> {
    join_records_prefix(rs, rs.len() as int)
}

/// A signed bound as the mathematical integer it denotes.
pub open spec fn signed_view(value: Option<i32>) -> Option<int> {
    match value {
        Some(v) => Some(v as int),
        None => None,
    }
}

/// A returned text blob as the character sequence it denotes.
pub open spec fn text_result_view(r: Result<String, CzvError>) -> Result<Seq<char>, CzvError> {
    match r {
        Ok(s) => Ok(s@),
        Err(e) => Err(e),
    }
}

/// How the range form of a slice resolves over the data records: the start
/// defaults to record zero; exactly one of end and length must bound the
/// range, and each is held against the total the same way; a range whose end
/// falls before its start, like one with no end at all, cannot be satisfied
/// during extraction.
pub open spec fn spec_slice_range(
    data: Seq<Seq<Seq<char>>>,
    start: Option<int>,
    end: Option<int>,
    length: Option<int>,
) -> Result<Seq<char>, CzvError> {
    let total = data.len() as int;
    match (match start {
        Some(v) => resolve_bound(v, total),
        None => Ok(0int),
    }) {
        Err(e) => Err(e),
        Ok(s) => match (match (end, length) {
            (Some(v), None) => resolve_bound(v, total),
            (None, Some(v)) => resolve_bound(v, total),
            (None, None) => Err(CzvError::Extraction),
            (Some(_), Some(_)) => Err(CzvError::Configuration),
        }) {
            Err(e) => Err(e),
            Ok(e) => if e < s {
                Err(CzvError::Extraction)
            } else {
                Ok(join_records(data.subrange(s, e)))
            },
        },
    }
}

/// What a slice of the given records returns, for every combination of the
/// optional parameters: an index is mutually exclusive with the range
/// parameters, end and length with each other; an index extracts one record,
/// a range the records from its start up to but excluding its end.
pub open spec fn spec_slice(
    all: Seq<Seq<Seq<char>>>,
    start: Option<int>,
    end: Option<int>,
    length: Option<int>,
    index: Option<int>,
    include_header_row: bool,
) -> Result<Seq<char>, CzvError> {
    let data = data_records(all, include_header_row);
    let total = data.len() as int;
    if index is Some && (start is Some || end is Some || length is Some) {
        Err(CzvError::Configuration)
    } else if end is Some && length is Some {
        Err(CzvError::Configuration)
    } else {
        match index {
            Some(v) => match resolve_index(v, total) {
                Ok(i) => Ok(join_fields(data[i])),
                Err(e) => Err(e),
            },
            None => spec_slice_range(data, start, end, length),
        }
    }
}

/// How many times a character occurs in a text.
pub open spec fn count_char(s: Seq<char>, c: char) -> nat
    decreases s.len(),
{
    if s.len() == 0 {
        0
    } else {
        count_char(s.drop_last(), c) + (if s.last() == c {
            1nat
        } else {
            0nat
        })
    }
}

} // verus!
