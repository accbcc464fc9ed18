//! The slicing operation: a contiguous range of rows, or a single record,
//! extracted from delimited text and re-serialized as one text blob.

use vstd::prelude::*;

use crate::model::data_records;
use crate::model::join_fields;
use crate::model::join_fields_prefix;
use crate::model::join_records;
use crate::model::join_records_prefix;
use crate::model::resolve_bound;
use crate::model::resolve_index;
use crate::model::signed_view;
use crate::model::spec_slice;
use crate::model::text_result_view;
use crate::reader::csv_records;
use crate::reader::parse_records;
use crate::reader::read_records;
use crate::CzvError;

verus! {

/// Resolves one signed range bound against the record total, as
/// `resolve_bound` describes.
fn resolve_bound_exec(value: i32, total: usize) -> (resolved: Result<usize, CzvError>)
    ensures
        (match resolved {
            Ok(v) => resolve_bound(value as int, total as int) == Ok::<int, CzvError>(v as int),
            Err(e) => resolve_bound(value as int, total as int) == Err::<int, CzvError>(e),
        }),
{
    if value >= 0 {
        let v = value as usize;
        if v > total {
            Err(CzvError::Range)
        } else {
            Ok(v)
        }
    } else {
        let deficit = (-(value as i64)) as usize;
        if total >= deficit {
            Ok(total - deficit)
        } else {
            Err(CzvError::Range)
        }
    }
}

/// Resolves a signed single-record index against the record total, as
/// `resolve_index` describes; `None` stands for the extraction failure.
fn resolve_index_exec(value: i32, total: usize) -> (resolved: Option<usize>)
    ensures
        (match resolved {
            Some(i) => resolve_index(value as int, total as int) == Ok::<int, CzvError>(i as int),
            None => resolve_index(value as int, total as int) == Err::<int, CzvError>(
                CzvError::Extraction,
            ),
        }),
{
    if value >= 0 {
        let v = value as usize;
        if v < total {
            Some(v)
        } else {
            None
        }
    } else {
        let deficit = (-(value as i64)) as usize;
        if total >= deficit {
            Some(total - deficit)
        } else {
            None
        }
    }
}

/// One record serialized as text: its fields joined with commas.
#[verifier::loop_isolation(false)]
fn join_record(record: &Vec<String>) -> (out: String)
    ensures
        out@ == join_fields(record.deep_view()),
{
    let mut out = String::new();
    let mut i: usize = 0;
    proof {
        reveal_strlit(",");
    }
    while i < record.len()
        invariant
            i <= record.len(),
            out@ == join_fields_prefix(record.deep_view(), i as int),
        decreases record.len() - i,
    {
        if i > 0 {
            out.append(",");
        }
        out.append(record[i].as_str());
        proof {
            assert(","@ =~= seq![',']);
            assert(record.deep_view()[i as int] == record@[i as int]@);
        }
        i = i + 1;
    }
    out
}

/// A slice of the given parsed records, for every combination of the optional
/// parameters, exactly as `spec_slice` lays the operation down.
#[verifier::loop_isolation(false)]
#[verifier::rlimit(60)]
pub fn slice_of_records(
    records: &Vec<Vec<String>>,
    start: Option<i32>,
    end: Option<i32>,
    length: Option<i32>,
    index: Option<i32>,
    include_header_row: bool,
) -> (result: Result<String, CzvError>)
    ensures
        text_result_view(result) == spec_slice(
            records.deep_view(),
            signed_view(start),
            signed_view(end),
            signed_view(length),
            signed_view(index),
            include_header_row,
        ),
{
    let ghost all = records.deep_view();
    let ghost data = data_records(all, include_header_row);
    let offset: usize = if include_header_row || records.len() == 0 {
        0
    } else {
        1
    };
    let total: usize = records.len() - offset;
    proof {
        assert(all.len() == records@.len());
        assert(data =~= all.subrange(offset as int, all.len() as int));
        assert(data.len() == total);
    }
    if index.is_some() && (start.is_some() || end.is_some() || length.is_some()) {
        return Err(CzvError::Configuration);
    }
    if end.is_some() && length.is_some() {
        return Err(CzvError::Configuration);
    }
    if let Some(given_index) = index {
        match resolve_index_exec(given_index, total) {
            Some(i) => {
                let out = join_record(&records[offset + i]);
                proof {
                    assert(records.deep_view()[(offset + i) as int] == records@[(offset
                        + i) as int].deep_view());
                    assert(data[i as int] == all[(offset + i) as int]);
                }
                Ok(out)
            },
            None => Err(CzvError::Extraction),
        }
    } else {
        let from: usize = match start {
            Some(v) => match resolve_bound_exec(v, total) {
                Ok(s) => s,
                Err(e) => {
                    return Err(e);
                },
            },
            None => 0,
        };
        let to: usize = if let Some(v) = end {
            match resolve_bound_exec(v, total) {
                Ok(e) => e,
                Err(e) => {
                    return Err(e);
                },
            }
        } else if let Some(v) = length {
            match resolve_bound_exec(v, total) {
                Ok(e) => e,
                Err(e) => {
                    return Err(e);
                },
            }
        } else {
            return Err(CzvError::Extraction);
        };
        if to < from {
            return Err(CzvError::Extraction);
        }
        let ghost taken = data.subrange(from as int, to as int);
        let mut out = String::new();
        let mut i: usize = from;
        proof {
            reveal_strlit("\n");
        }
        while i < to
            invariant
                from <= i <= to,
                out@ == join_records_prefix(taken, i - from),
            decreases to - i,
        {
            proof {
                assert(taken[(i - from) as int] == data[i as int]);
                assert(data[i as int] == records.deep_view()[(offset + i) as int]);
            }
            if i > from {
                out.append("\n");
            }
            let piece = join_record(&records[offset + i]);
            out.append(piece.as_str());
            proof {
                assert("\n"@ =~= seq!['\n']);
            }
            i = i + 1;
        }
        proof {
            assert(taken.len() == to - from);
            assert(out@ == join_records(taken));
        }
        Ok(out)
    }
}

/// Returns a slice of rows from the delimited data, re-serialized as text.
///
/// Exactly one of `file_path` and `file_data` must be given. An `index` names
/// a single record and excludes `start`, `end` and `length`; `end` and
/// `length` exclude each other; each bound may be negative to count back from
/// the last record. The header row is excluded from the record numbering
/// unless `include_header_row` is set.
pub fn slice(
    file_path: Option<String>,
    file_data: Option<String>,
    start: Option<i32>,
    end: Option<i32>,
    length: Option<i32>,
    index: Option<i32>,
    include_header_row: bool,
) -> (result: Result<String, CzvError>)
    ensures
        file_path is Some && file_data is Some ==> result == Err::<String, CzvError>(
            CzvError::Configuration,
        ),
        file_path is None && file_data is None ==> result == Err::<String, CzvError>(
            CzvError::Configuration,
        ),
        file_path is None ==> (file_data matches Some(data) ==> text_result_view(result)
            == spec_slice(
            csv_records(data@),
            signed_view(start),
            signed_view(end),
            signed_view(length),
            signed_view(index),
            include_header_row,
        )),
        file_path is Some && file_data is None ==> (result == Err::<String, CzvError>(
            CzvError::Source,
        ) || result == Err::<String, CzvError>(CzvError::Parse) || exists|recs: Seq<Seq<Seq<char>>>|
            text_result_view(result) == spec_slice(
                recs,
                signed_view(start),
                signed_view(end),
                signed_view(length),
                signed_view(index),
                include_header_row,
            )),
{
    match (file_path, file_data) {
        (Some(_), Some(_)) => Err(CzvError::Configuration),
        (None, None) => Err(CzvError::Configuration),
        (Some(path), None) => match read_records(path.as_str()) {
            Ok(records) => {
                let out = slice_of_records(
                    &records,
                    start,
                    end,
                    length,
                    index,
                    include_header_row,
                );
                proof {
                    let recs = records.deep_view();
                    assert(text_result_view(out) == spec_slice(
                        recs,
                        signed_view(start),
                        signed_view(end),
                        signed_view(length),
                        signed_view(index),
                        include_header_row,
                    ));
                }
                out
            },
            Err(e) => Err(e),
        },
        (None, Some(data)) => {
            let records = parse_records(data.as_str());
            slice_of_records(&records, start, end, length, index, include_header_row)
        },
    }
}

/// Configuration of a slice: a source, the bounds or index, and the header
/// policy. Built up by a SliceBuilder and consumed by its execute method.
pub struct Slice {
    /// CSV file path (alternative to `file_data`).
    pub file_path: Option<String>,
    /// CSV file data (alternative to `file_path`).
    pub file_data: Option<String>,
    /// The index of the record to slice from (0-indexed). If negative, counts
    /// back from the last record.
    pub start: Option<i32>,
    /// The index of the record to slice to, excluded from the result.
    pub end: Option<i32>,
    /// The length of the slice (alternative to `end`).
    pub length: Option<i32>,
    /// A single record to slice. If negative, counts back from the last
    /// record. Excludes `start`, `end` and `length`.
    pub index: Option<i32>,
    /// Whether to include the header row (first row) in the records.
    pub include_header_row: bool,
}

impl Slice {
    /// Returns a SliceBuilder to customize slice options by running other
    /// methods before getting the sliced rows with the execute method.
    pub fn new() -> (builder: SliceBuilder)
        ensures
            builder.file_path is None,
            builder.file_data is None,
            builder.start is None,
            builder.end is None,
            builder.length is None,
            builder.index is None,
            !builder.include_header_row,
    {
        SliceBuilder {
            file_path: None,
            file_data: None,
            start: None,
            end: None,
            length: None,
            index: None,
            include_header_row: false,
        }
    }
}

/// Fluent setup of the optional slice parameters.
pub struct SliceBuilder {
    /// CSV file path (alternative to `file_data`).
    pub file_path: Option<String>,
    /// CSV file data (alternative to `file_path`).
    pub file_data: Option<String>,
    /// The index of the record to slice from (0-indexed). If negative, counts
    /// back from the last record.
    pub start: Option<i32>,
    /// The index of the record to slice to, excluded from the result.
    pub end: Option<i32>,
    /// The length of the slice (alternative to `end`).
    pub length: Option<i32>,
    /// A single record to slice. If negative, counts back from the last
    /// record. Excludes `start`, `end` and `length`.
    pub index: Option<i32>,
    /// Whether to include the header row (first row) in the records.
    pub include_header_row: bool,
}

impl SliceBuilder {
    /// CSV file path (alternative to `file_data`).
    pub fn file_path(self, path: &str) -> (builder: Self)
        ensures
            builder.file_path matches Some(p) && p@ == path@,
            builder == (Self { file_path: builder.file_path, ..self }),
    {
        Self { file_path: Some(path.to_owned()), ..self }
    }

    /// CSV file data (alternative to `file_path`).
    pub fn file_data(self, data: &str) -> (builder: Self)
        ensures
            builder.file_data matches Some(d) && d@ == data@,
            builder == (Self { file_data: builder.file_data, ..self }),
    {
        Self { file_data: Some(data.to_owned()), ..self }
    }

    /// The index of the record to slice from (0-indexed). If negative, counts
    /// back from the last record.
    pub fn start(self, value: i32) -> (builder: Self)
        ensures
            builder == (Self { start: Some(value), ..self }),
    {
        Self { start: Some(value), ..self }
    }

    /// The index of the record to slice to, excluded from the result.
    pub fn end(self, value: i32) -> (builder: Self)
        ensures
            builder == (Self { end: Some(value), ..self }),
    {
        Self { end: Some(value), ..self }
    }

    /// The length of the slice (alternative to `end`).
    pub fn length(self, value: i32) -> (builder: Self)
        ensures
            builder == (Self { length: Some(value), ..self }),
    {
        Self { length: Some(value), ..self }
    }

    /// A single record to slice. If negative, counts back from the last
    /// record. Excludes `start`, `end` and `length`.
    pub fn index(self, value: i32) -> (builder: Self)
        ensures
            builder == (Self { index: Some(value), ..self }),
    {
        Self { index: Some(value), ..self }
    }

    /// Whether to include the header row (first row) in the records.
    pub fn include_header_row(self, yes: bool) -> (builder: Self)
        ensures
            builder == (Self { include_header_row: yes, ..self }),
    {
        Self { include_header_row: yes, ..self }
    }

    /// Builds the configuration and returns the sliced rows.
    pub fn execute(self) -> (result: Result<String, CzvError>)
        ensures
            self.file_path is Some && self.file_data is Some ==> result == Err::<String, CzvError>(
                CzvError::Configuration,
            ),
            self.file_path is None && self.file_data is None ==> result == Err::<String, CzvError>(
                CzvError::Configuration,
            ),
            self.file_path is None ==> (self.file_data matches Some(data) ==> text_result_view(
                result,
            ) == spec_slice(
                csv_records(data@),
                signed_view(self.start),
                signed_view(self.end),
                signed_view(self.length),
                signed_view(self.index),
                self.include_header_row,
            )),
            self.file_path is Some && self.file_data is None ==> (result == Err::<String, CzvError>(
                CzvError::Source,
            ) || result == Err::<String, CzvError>(CzvError::Parse) || exists|
                recs: Seq<Seq<Seq<char>>>,
            |
                text_result_view(result) == spec_slice(
                    recs,
                    signed_view(self.start),
                    signed_view(self.end),
                    signed_view(self.length),
                    signed_view(self.index),
                    self.include_header_row,
                )),
    {
        let config = Slice {
            file_path: self.file_path,
            file_data: self.file_data,
            start: self.start,
            end: self.end,
            length: self.length,
            index: self.index,
            include_header_row: self.include_header_row,
        };
        slice(
            config.file_path,
            config.file_data,
            config.start,
            config.end,
            config.length,
            config.index,
            config.include_header_row,
        )
    }
}

} // verus!
