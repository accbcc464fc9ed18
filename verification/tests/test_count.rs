use czv::count::column_count;
use czv::count::row_count;
use czv::count::ColumnCount;
use czv::count::RowCount;

/// The four-line fruits sample: a header and three data records.
fn fruits_data() -> String {
    "fruit,price\napple,2.50\nbanana,3.00\nstrawberry,1.50\n".to_string()
}

/// A six-column dataset with a known large record count.
fn constituents_altnames_data() -> String {
    let mut data = String::from("name,symbol,sector,alt_one,alt_two,alt_three\n");
    for i in 0..33971u32 {
        let sector = i % 11;
        data.push_str(&format!("item{i},sym{i},sector{sector},a{i},b{i},c{i}\n"));
    }
    data
}

#[test]
fn test_row_count() {
    let cases = vec![(fruits_data(), 3), (constituents_altnames_data(), 33971)];
    for (file_data, expected) in cases {
        let got = row_count(None, Some(file_data), false).unwrap();
        assert_eq!(expected, got);
    }
}

#[test]
fn test_row_count_builder() {
    let cases = vec![(fruits_data(), 3), (constituents_altnames_data(), 33971)];
    for (file_data, expected) in cases {
        let got = RowCount::new().file_data(&file_data).execute().unwrap();
        assert_eq!(expected, got);
    }
}

#[test]
fn test_column_count() {
    let cases = vec![(fruits_data(), 2), (constituents_altnames_data(), 6)];
    for (file_data, expected) in cases {
        let got = column_count(None, Some(file_data)).unwrap();
        assert_eq!(expected, got);
    }
}

#[test]
fn test_column_count_builder() {
    let cases = vec![(fruits_data(), 2), (constituents_altnames_data(), 6)];
    for (file_data, expected) in cases {
        let got = ColumnCount::new().file_data(&file_data).execute().unwrap();
        assert_eq!(expected, got);
    }
}

#[test]
fn row_count_nonheader() {
    let file_data = "fruit,price
apple,2.00
banana,1.50
strawberry,3.00"
        .to_string();
    let result = row_count(None, Some(file_data), false).unwrap();
    assert_eq!(result, 3);
}

#[test]
fn row_count_header() {
    let file_data = "fruit,price
apple,2.00
banana,1.50
strawberry,3.00"
        .to_string();
    let result = row_count(None, Some(file_data), true).unwrap();
    assert_eq!(result, 4);
}
