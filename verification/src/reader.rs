//! The boundary to the delimited-record parser of the `csv` crate.
//!
//! Everything the engine knows about parsing lives here: an uninterpreted name
//! for the record sequence a text parses to, and the two trusted entry points
//! that produce it, one from an in-memory buffer and one from a file path.

use vstd::prelude::*;

use crate::CzvError;

verus! {

/// The sequence of records (each a sequence of fields) that the csv crate's
/// parser reads out of a delimited text when header handling is disabled and
/// field counts are left flexible. It depends on the text alone.
pub uninterp spec fn csv_records(text: Seq<char>) -> Seq<Seq<Seq<char>>>;

/// Relies on csv::ReaderBuilder::from_reader with has_headers(false) and
/// flexible(true): every physical record of the buffer is yielded in order,
/// and on an in-memory buffer of valid UTF-8 no record can fail, since I/O,
/// encoding and field-count errors are all ruled out by that configuration.
#[verifier::external_body]
pub(crate) fn parse_records(data: &str) -> (records: Vec<Vec<String>>)
    ensures
        records.deep_view() == csv_records(data@),
{
    let mut rdr =
        csv::ReaderBuilder::new().has_headers(false).flexible(true).from_reader(data.as_bytes());
    let mut records: Vec<Vec<String>> = Vec::new();
    for result in rdr.records() {
        if let Ok(record) = result {
            records.push(record.iter().map(|field| field.to_string()).collect());
        }
    }
    records
}

/// Relies on csv::ReaderBuilder::from_path with the same configuration. What
/// comes back depends on what is behind the path, so nothing is promised of
/// the records; a file that cannot be opened, or an I/O fault while reading,
/// is the source error, and any other record fault (a field that is not valid
/// UTF-8) the parse error.
#[verifier::external_body]
pub(crate) fn read_records(path: &str) -> (result: Result<Vec<Vec<String>>, CzvError>)
    ensures
        (match result {
            Ok(_) => true,
            Err(e) => e == CzvError::Source || e == CzvError::Parse,
        }),
{
    let opened = csv::ReaderBuilder::new().has_headers(false).flexible(true).from_path(path);
    let Ok(mut rdr) = opened else { return Err(CzvError::Source) };
    let mut records: Vec<Vec<String>> = Vec::new();
    for result in rdr.records() {
        match result {
            Ok(record) => records.push(record.iter().map(|field| field.to_string()).collect()),
            Err(e) if matches!(e.kind(), csv::ErrorKind::Io(_)) => return Err(CzvError::Source),
            Err(_) => return Err(CzvError::Parse),
        }
    }
    Ok(records)
}

} // verus!
