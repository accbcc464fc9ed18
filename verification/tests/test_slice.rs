use czv::slice::slice;
use czv::slice::Slice;

/// The four-line fruits sample: a header and three data records.
fn fruits_data() -> String {
    "fruit,price\napple,2.50\nbanana,3.00\nstrawberry,1.50\n".to_string()
}

#[test]
fn test_slice_start_end() {
    let cases = vec![(fruits_data(), 1, 3, "banana,3.00\nstrawberry,1.50".to_string())];
    for (file_data, start, end, expected) in cases {
        let got = slice(
            None,
            Some(file_data),
            Some(start),
            Some(end),
            None,
            None,
            false,
        )
        .unwrap();
        assert_eq!(expected, got);
    }
}

#[test]
fn test_slice_start_end_data() {
    let cases = vec![(
        "fruit,price\napple,2.50\nbanana,3.00\nstrawberry,1.50".to_string(),
        1,
        3,
        "banana,3.00\nstrawberry,1.50".to_string(),
    )];
    for (file_data, start, end, expected) in cases {
        let got = slice(
            None,
            Some(file_data),
            Some(start),
            Some(end),
            None,
            None,
            false,
        )
        .unwrap();
        assert_eq!(expected, got);
    }
}

#[test]
fn test_slice_start_0_end_3() {
    let expected = "apple,2.50\nbanana,3.00".to_string();
    let got: String = Slice::new()
        .file_data(&fruits_data())
        .start(0)
        .end(2) // exclusive
        .include_header_row(false)
        .execute()
        .unwrap();

    assert_eq!(expected, got);
}

#[test]
fn test_slice_index_2() {
    let expected = "strawberry,1.50".to_string();
    let got: String = Slice::new()
        .file_data(&fruits_data())
        .index(2)
        .include_header_row(false)
        .execute()
        .unwrap();

    assert_eq!(expected, got);
}
