//! Counting operations: row count and column count.

use vstd::prelude::*;

use crate::model::spec_column_count;
use crate::model::spec_row_count;
use crate::reader::csv_records;
use crate::reader::parse_records;
use crate::reader::read_records;
use crate::CzvError;

verus! {

/// Count of the data records among the given parsed records: all of them when
/// the header row is included, else all but the first.
pub fn row_count_of_records(records: &Vec<Vec<String>>, include_header_row: bool) -> (count:
    usize)
    ensures
        count == spec_row_count(records.deep_view(), include_header_row),
{
    if include_header_row || records.len() == 0 {
        records.len()
    } else {
        records.len() - 1
    }
}

/// Count of the fields of the first physical record, or zero where there is
/// none.
pub fn column_count_of_records(records: &Vec<Vec<String>>) -> (count: usize)
    ensures
        count == spec_column_count(records.deep_view()),
{
    if records.len() == 0 {
        0
    } else {
        records[0].len()
    }
}

/// Returns a count of the total number of rows.
///
/// Exactly one of `file_path` and `file_data` must be given; the header row is
/// excluded from the count unless `include_header_row` is set.
pub fn row_count(
    file_path: Option<String>,
    file_data: Option<String>,
    include_header_row: bool,
) -> (result: Result<usize, CzvError>)
    ensures
        file_path is Some && file_data is Some ==> result == Err::<usize, CzvError>(
            CzvError::Configuration,
        ),
        file_path is None && file_data is None ==> result == Err::<usize, CzvError>(
            CzvError::Configuration,
        ),
        file_path is None ==> (file_data matches Some(data) ==> (result matches Ok(count)
            && count == spec_row_count(csv_records(data@), include_header_row))),
        file_path is Some && file_data is None && result is Err ==> (result == Err::<
            usize,
            CzvError,
        >(CzvError::Source) || result == Err::<usize, CzvError>(CzvError::Parse)),
{
    match (file_path, file_data) {
        (Some(_), Some(_)) => Err(CzvError::Configuration),
        (None, None) => Err(CzvError::Configuration),
        (Some(path), None) => match read_records(path.as_str()) {
            Ok(records) => Ok(row_count_of_records(&records, include_header_row)),
            Err(e) => Err(e),
        },
        (None, Some(data)) => {
            let records = parse_records(data.as_str());
            Ok(row_count_of_records(&records, include_header_row))
        },
    }
}

/// Returns a count of the total number of columns (fields), read off the
/// first physical record regardless of any header policy.
///
/// Exactly one of `file_path` and `file_data` must be given.
pub fn column_count(file_path: Option<String>, file_data: Option<String>) -> (result: Result<
    usize,
    CzvError,
>)
    ensures
        file_path is Some && file_data is Some ==> result == Err::<usize, CzvError>(
            CzvError::Configuration,
        ),
        file_path is None && file_data is None ==> result == Err::<usize, CzvError>(
            CzvError::Configuration,
        ),
        file_path is None ==> (file_data matches Some(data) ==> (result matches Ok(count)
            && count == spec_column_count(csv_records(data@)))),
        file_path is Some && file_data is None && result is Err ==> (result == Err::<
            usize,
            CzvError,
        >(CzvError::Source) || result == Err::<usize, CzvError>(CzvError::Parse)),
{
    match (file_path, file_data) {
        (Some(_), Some(_)) => Err(CzvError::Configuration),
        (None, None) => Err(CzvError::Configuration),
        (Some(path), None) => match read_records(path.as_str()) {
            Ok(records) => Ok(column_count_of_records(&records)),
            Err(e) => Err(e),
        },
        (None, Some(data)) => {
            let records = parse_records(data.as_str());
            Ok(column_count_of_records(&records))
        },
    }
}

/// Configuration of a row count: a source and the header policy. Built up by
/// a RowCountBuilder and consumed by its execute method.
pub struct RowCount {
    /// CSV file path (alternative to `file_data`).
    pub file_path: Option<String>,
    /// CSV file data (alternative to `file_path`).
    pub file_data: Option<String>,
    /// Whether to include the header row (first row) in the row count.
    pub include_header_row: bool,
}

impl RowCount {
    /// Returns a RowCountBuilder to customize row count options by running
    /// other methods before getting the row count with the execute method.
    pub fn new() -> (builder: RowCountBuilder)
        ensures
            builder.file_path is None,
            builder.file_data is None,
            !builder.include_header_row,
    {
        RowCountBuilder { file_path: None, file_data: None, include_header_row: false }
    }
}

/// Fluent setup of the optional row count parameters.
pub struct RowCountBuilder {
    /// CSV file path (alternative to `file_data`).
    pub file_path: Option<String>,
    /// CSV file data (alternative to `file_path`).
    pub file_data: Option<String>,
    /// Whether to include the header row (first row) in the row count.
    pub include_header_row: bool,
}

impl RowCountBuilder {
    /// CSV file path (alternative to `file_data`).
    pub fn file_path(self, path: &str) -> (builder: Self)
        ensures
            builder.file_path matches Some(p) && p@ == path@,
            builder.file_data == self.file_data,
            builder.include_header_row == self.include_header_row,
    {
        RowCountBuilder {
            file_path: Some(path.to_owned()),
            file_data: self.file_data,
            include_header_row: self.include_header_row,
        }
    }

    /// CSV file data (alternative to `file_path`).
    pub fn file_data(self, data: &str) -> (builder: Self)
        ensures
            builder.file_data matches Some(d) && d@ == data@,
            builder.file_path == self.file_path,
            builder.include_header_row == self.include_header_row,
    {
        RowCountBuilder {
            file_path: self.file_path,
            file_data: Some(data.to_owned()),
            include_header_row: self.include_header_row,
        }
    }

    /// Whether to include the header row (first row) in the row count.
    pub fn include_header_row(self, yes: bool) -> (builder: Self)
        ensures
            builder.include_header_row == yes,
            builder.file_path == self.file_path,
            builder.file_data == self.file_data,
    {
        RowCountBuilder {
            file_path: self.file_path,
            file_data: self.file_data,
            include_header_row: yes,
        }
    }

    /// Builds the configuration and returns the row count.
    pub fn execute(self) -> (result: Result<usize, CzvError>)
        ensures
            self.file_path is Some && self.file_data is Some ==> result == Err::<usize, CzvError>(
                CzvError::Configuration,
            ),
            self.file_path is None && self.file_data is None ==> result == Err::<usize, CzvError>(
                CzvError::Configuration,
            ),
            self.file_path is None ==> (self.file_data matches Some(data) ==> (result matches Ok(
                count,
            ) && count == spec_row_count(csv_records(data@), self.include_header_row))),
            self.file_path is Some && self.file_data is None && result is Err ==> (result == Err::<
                usize,
                CzvError,
            >(CzvError::Source) || result == Err::<usize, CzvError>(CzvError::Parse)),
    {
        let config = RowCount {
            file_path: self.file_path,
            file_data: self.file_data,
            include_header_row: self.include_header_row,
        };
        row_count(config.file_path, config.file_data, config.include_header_row)
    }
}

/// Configuration of a column count: a source. Built up by a
/// ColumnCountBuilder and consumed by its execute method.
pub struct ColumnCount {
    /// CSV file path (alternative to `file_data`).
    pub file_path: Option<String>,
    /// CSV file data (alternative to `file_path`).
    pub file_data: Option<String>,
}

impl ColumnCount {
    /// Returns a ColumnCountBuilder to customize column count options by
    /// running other methods before getting the column count with the execute
    /// method.
    pub fn new() -> (builder: ColumnCountBuilder)
        ensures
            builder.file_path is None,
            builder.file_data is None,
    {
        ColumnCountBuilder { file_path: None, file_data: None }
    }
}

/// Fluent setup of the optional column count parameters.
pub struct ColumnCountBuilder {
    /// CSV file path (alternative to `file_data`).
    pub file_path: Option<String>,
    /// CSV file data (alternative to `file_path`).
    pub file_data: Option<String>,
}

impl ColumnCountBuilder {
    /// CSV file path (alternative to `file_data`).
    pub fn file_path(self, path: &str) -> (builder: Self)
        ensures
            builder.file_path matches Some(p) && p@ == path@,
            builder.file_data == self.file_data,
    {
        ColumnCountBuilder { file_path: Some(path.to_owned()), file_data: self.file_data }
    }

    /// CSV file data (alternative to `file_path`).
    pub fn file_data(self, data: &str) -> (builder: Self)
        ensures
            builder.file_data matches Some(d) && d@ == data@,
            builder.file_path == self.file_path,
    {
        ColumnCountBuilder { file_path: self.file_path, file_data: Some(data.to_owned()) }
    }

    /// Builds the configuration and returns the column count.
    pub fn execute(self) -> (result: Result<usize, CzvError>)
        ensures
            self.file_path is Some && self.file_data is Some ==> result == Err::<usize, CzvError>(
                CzvError::Configuration,
            ),
            self.file_path is None && self.file_data is None ==> result == Err::<usize, CzvError>(
                CzvError::Configuration,
            ),
            self.file_path is None ==> (self.file_data matches Some(data) ==> (result matches Ok(
                count,
            ) && count == spec_column_count(csv_records(data@)))),
            self.file_path is Some && self.file_data is None && result is Err ==> (result == Err::<
                usize,
                CzvError,
            >(CzvError::Source) || result == Err::<usize, CzvError>(CzvError::Parse)),
    {
        let config = ColumnCount { file_path: self.file_path, file_data: self.file_data };
        column_count(config.file_path, config.file_data)
    }
}

} // verus!
