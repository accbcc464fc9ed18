use czv::count::column_count;
use czv::count::row_count;
use czv::slice::slice;
use czv::CzvError;

/// The sample from the round-trip examples: a header and three data records.
fn sample() -> String {
    "fruits,price\napple,2.50\nbanana,3.00\nstrawberry,1.50\n".to_string()
}

#[test]
fn round_trip_counts() {
    assert_eq!(row_count(None, Some(sample()), false).unwrap(), 3);
    assert_eq!(row_count(None, Some(sample()), true).unwrap(), 4);
    assert_eq!(column_count(None, Some(sample())).unwrap(), 2);
}

#[test]
fn round_trip_range() {
    let got = slice(None, Some(sample()), Some(0), Some(2), None, None, false).unwrap();
    assert_eq!(got, "apple,2.50\nbanana,3.00");
}

#[test]
fn round_trip_single_index() {
    let got = slice(None, Some(sample()), None, None, None, Some(2), false).unwrap();
    assert_eq!(got, "strawberry,1.50");
}

#[test]
fn range_boundary_end_may_equal_total() {
    let got = slice(None, Some(sample()), Some(1), Some(3), None, None, false).unwrap();
    assert_eq!(got, "banana,3.00\nstrawberry,1.50");
}

#[test]
fn count_matches_sliced_lines() {
    let count = row_count(None, Some(sample()), false).unwrap();
    let got = slice(
        None,
        Some(sample()),
        Some(0),
        Some(count as i32),
        None,
        None,
        false,
    )
    .unwrap();
    assert_eq!(got.split('\n').count(), count);
}

#[test]
fn negative_index_names_last_record() {
    let last = slice(None, Some(sample()), None, None, None, Some(-1), false).unwrap();
    let explicit = slice(None, Some(sample()), None, None, None, Some(2), false).unwrap();
    assert_eq!(last, explicit);
    assert_eq!(last, "strawberry,1.50");
}

#[test]
fn negative_bounds_count_back_from_total() {
    let got = slice(None, Some(sample()), Some(-2), Some(3), None, None, false).unwrap();
    assert_eq!(got, "banana,3.00\nstrawberry,1.50");
    let got = slice(None, Some(sample()), Some(0), Some(-1), None, None, false).unwrap();
    assert_eq!(got, "apple,2.50\nbanana,3.00");
}

#[test]
fn length_is_an_absolute_bound() {
    let got = slice(None, Some(sample()), Some(1), None, Some(3), None, false).unwrap();
    assert_eq!(got, "banana,3.00\nstrawberry,1.50");
    let got = slice(None, Some(sample()), Some(1), None, Some(2), None, false).unwrap();
    assert_eq!(got, "banana,3.00");
}

#[test]
fn header_row_counts_as_record_zero_when_included() {
    let got = slice(None, Some(sample()), Some(0), Some(2), None, None, true).unwrap();
    assert_eq!(got, "fruits,price\napple,2.50");
    let got = slice(None, Some(sample()), None, None, None, Some(0), true).unwrap();
    assert_eq!(got, "fruits,price");
}

#[test]
fn both_and_neither_source_are_configuration_errors() {
    let err = row_count(Some("a.csv".to_string()), Some(sample()), false).unwrap_err();
    assert_eq!(err, CzvError::Configuration);
    let err = row_count(None, None, false).unwrap_err();
    assert_eq!(err, CzvError::Configuration);
    let err = column_count(Some("a.csv".to_string()), Some(sample())).unwrap_err();
    assert_eq!(err, CzvError::Configuration);
    let err = column_count(None, None).unwrap_err();
    assert_eq!(err, CzvError::Configuration);
    let err = slice(
        Some("a.csv".to_string()),
        Some(sample()),
        Some(0),
        Some(1),
        None,
        None,
        false,
    )
    .unwrap_err();
    assert_eq!(err, CzvError::Configuration);
    let err = slice(None, None, Some(0), Some(1), None, None, false).unwrap_err();
    assert_eq!(err, CzvError::Configuration);
}

#[test]
fn index_excludes_range_parameters() {
    let err = slice(None, Some(sample()), Some(0), None, None, Some(1), false).unwrap_err();
    assert_eq!(err, CzvError::Configuration);
    let err = slice(None, Some(sample()), None, Some(2), None, Some(1), false).unwrap_err();
    assert_eq!(err, CzvError::Configuration);
    let err = slice(None, Some(sample()), None, None, Some(2), Some(1), false).unwrap_err();
    assert_eq!(err, CzvError::Configuration);
}

#[test]
fn end_excludes_length() {
    let err = slice(None, Some(sample()), Some(0), Some(2), Some(2), None, false).unwrap_err();
    assert_eq!(err, CzvError::Configuration);
}

#[test]
fn bounds_beyond_the_total_are_range_errors() {
    let err = slice(None, Some(sample()), Some(4), Some(2), None, None, false).unwrap_err();
    assert_eq!(err, CzvError::Range);
    let err = slice(None, Some(sample()), Some(0), Some(4), None, None, false).unwrap_err();
    assert_eq!(err, CzvError::Range);
    let err = slice(None, Some(sample()), Some(0), None, Some(4), None, false).unwrap_err();
    assert_eq!(err, CzvError::Range);
    let err = slice(None, Some(sample()), Some(-5), Some(2), None, None, false).unwrap_err();
    assert_eq!(err, CzvError::Range);
    let err = slice(None, Some(sample()), Some(0), Some(-5), None, None, false).unwrap_err();
    assert_eq!(err, CzvError::Range);
}

#[test]
fn unsatisfiable_extractions_are_extraction_errors() {
    let err = slice(None, Some(sample()), None, None, None, Some(3), false).unwrap_err();
    assert_eq!(err, CzvError::Extraction);
    let err = slice(None, Some(sample()), None, None, None, Some(-4), false).unwrap_err();
    assert_eq!(err, CzvError::Extraction);
    let err = slice(None, Some(sample()), Some(2), Some(1), None, None, false).unwrap_err();
    assert_eq!(err, CzvError::Extraction);
    let err = slice(None, Some(sample()), Some(0), None, None, None, false).unwrap_err();
    assert_eq!(err, CzvError::Extraction);
}

#[test]
fn start_may_equal_the_total_for_an_empty_slice() {
    let got = slice(None, Some(sample()), Some(3), Some(3), None, None, false).unwrap();
    assert_eq!(got, "");
}

#[test]
fn quoted_fields_are_parsed_not_echoed() {
    let data = "name,note\nplum,\"sweet, ripe\"\n".to_string();
    assert_eq!(column_count(None, Some(data.clone())).unwrap(), 2);
    assert_eq!(row_count(None, Some(data.clone()), false).unwrap(), 1);
    let got = slice(None, Some(data), None, None, None, Some(0), false).unwrap();
    assert_eq!(got, "plum,sweet, ripe");
}

#[test]
fn empty_input_has_no_records_and_no_columns() {
    assert_eq!(row_count(None, Some(String::new()), false).unwrap(), 0);
    assert_eq!(row_count(None, Some(String::new()), true).unwrap(), 0);
    assert_eq!(column_count(None, Some(String::new())).unwrap(), 0);
}

#[test]
fn missing_file_is_a_source_error() {
    let path = "no/such/directory/missing.csv".to_string();
    let err = row_count(Some(path.clone()), None, false).unwrap_err();
    assert_eq!(err, CzvError::Source);
    let err = column_count(Some(path.clone()), None).unwrap_err();
    assert_eq!(err, CzvError::Source);
    let err = slice(Some(path), None, Some(0), Some(1), None, None, false).unwrap_err();
    assert_eq!(err, CzvError::Source);
}
