use csv_table::CsvData;
use ratatui::widgets::Row;

fn strings(fields: &[&str]) -> Vec<String> {
    fields.iter().map(|s| s.to_string()).collect()
}

fn three_records() -> CsvData {
    CsvData::from_bytes(b"h1,h2\na,1\nb,2\nc,3\n").unwrap()
}

#[test]
fn build_counts_records() {
    let d = CsvData::from_bytes(b"n\n1\n2\n3\n4\n").unwrap();
    assert_eq!(d.len(), 4);
    assert!(!d.is_empty());
}

#[test]
fn window_len_matches_formula() {
    let d = three_records();
    let n = d.len();
    for first in 0..6usize {
        for count in [0usize, 1, 2, 3, 5, usize::MAX] {
            let expected = if first >= n { 0 } else { count.min(n - first) };
            assert_eq!(d.record_window(first, count).len(), expected);
        }
    }
}

#[test]
fn column_length_in_and_out_of_range() {
    let d = CsvData::from_bytes(b"a,b\nxyz,1\nq,12345\n").unwrap();
    assert_eq!(d.column_length(0), Some(&3));
    assert_eq!(d.column_length(1), Some(&5));
    assert_eq!(d.column_length(2), None);
    assert_eq!(d.column_length(usize::MAX), None);
}

#[test]
fn accessors_are_idempotent() {
    let d = three_records();
    assert_eq!(d.records(), d.records());
    assert_eq!(d.record_window(1, 1), d.record_window(1, 1));
    assert_eq!(d.column_lengths(), d.column_lengths());
    assert_eq!(d.column_length(0), d.column_length(0));
    assert_eq!(d.len(), d.len());
    assert_eq!(d.rows(), d.rows());
}

#[test]
fn fields_round_trip() {
    let d = CsvData::from_bytes(b"k,v\n\"a,b\",\"say \"\"hi\"\"\"\n,plain\n").unwrap();
    assert_eq!(
        d.records(),
        &[strings(&["a,b", "say \"hi\""]), strings(&["", "plain"])][..]
    );
}

#[test]
fn empty_input() {
    let d = CsvData::from_bytes(b"").unwrap();
    assert_eq!(d.len(), 0);
    assert!(d.is_empty());
    assert!(d.column_lengths().is_empty());
    assert!(d.records().is_empty());
    assert!(d.record_window(0, 10).is_empty());
}

#[test]
fn header_only_input() {
    let d = CsvData::from_bytes(b"x,y\n").unwrap();
    assert!(d.is_empty());
    assert!(d.column_lengths().is_empty());
}

#[test]
fn single_record_widths() {
    let d = CsvData::from_records(vec![strings(&["a", "bb", "ccc"])]);
    assert_eq!(d.column_lengths(), &[1, 2, 3][..]);
    let d = CsvData::from_bytes(b"p,q,r\na,bb,ccc\n").unwrap();
    assert_eq!(d.column_lengths(), &[1, 2, 3][..]);
}

#[test]
fn two_record_scenario() {
    let d = CsvData::from_bytes(b"x,y\n1,22\n333,4\n").unwrap();
    assert_eq!(d.len(), 2);
    assert_eq!(d.records(), &[strings(&["1", "22"]), strings(&["333", "4"])][..]);
    assert_eq!(d.column_lengths(), &[3, 2][..]);
}

#[test]
fn window_past_end_gives_last_two() {
    let d = three_records();
    assert_eq!(d.len(), 3);
    assert_eq!(d.record_window(1, 10), &[strings(&["b", "2"]), strings(&["c", "3"])][..]);
}

#[test]
fn window_starting_past_end_is_empty() {
    let d = three_records();
    assert!(d.record_window(7, 2).is_empty());
    assert!(d.record_window(3, usize::MAX).is_empty());
    assert_eq!(d.record_window(0, 1), &[strings(&["a", "1"])][..]);
}

#[test]
fn ragged_input_is_refused() {
    assert!(CsvData::from_bytes(b"a,b\n1,2\n3,4,5\n").is_err());
    assert!(CsvData::from_bytes(b"a,b\n1\n").is_err());
}

#[test]
fn invalid_utf8_is_refused() {
    assert!(CsvData::from_bytes(b"a,b\n1,\xff\xfe\n").is_err());
}

#[test]
fn widths_count_characters() {
    let d = CsvData::from_bytes("name\ncafé\nab\n".as_bytes()).unwrap();
    assert_eq!(d.column_lengths(), &[4][..]);
}

#[test]
fn ragged_records_track_first_record_columns() {
    let d = CsvData::from_records(vec![
        strings(&["a", "b"]),
        strings(&["long", "x", "wider"]),
        strings(&["cc"]),
    ]);
    assert_eq!(d.len(), 3);
    assert_eq!(d.column_lengths(), &[4, 1][..]);
    assert_eq!(d.column_length(2), None);
}

#[test]
fn widths_take_the_maximum_not_the_last() {
    let d = CsvData::from_records(vec![
        strings(&["abcd", "e"]),
        strings(&["f", "ghij"]),
        strings(&["", ""]),
    ]);
    assert_eq!(d.column_lengths(), &[4, 4][..]);
}

#[test]
fn rows_hold_the_fields() {
    let d = CsvData::from_bytes(b"x,y\n1,22\n333,4\n").unwrap();
    let rows = d.rows();
    assert_eq!(rows, vec![Row::new(vec!["1", "22"]), Row::new(vec!["333", "4"])]);
    assert_eq!(d.row_window(1, 5), vec![Row::new(vec!["333", "4"])]);
    assert!(d.row_window(2, 5).is_empty());
}

#[test]
fn rows_keep_multiline_and_empty_fields() {
    let d = CsvData::from_bytes(b"a,b\n\"one\ntwo\",\n").unwrap();
    assert_eq!(d.records(), &[strings(&["one\ntwo", ""])][..]);
    assert_eq!(d.rows(), vec![Row::new(vec!["one\ntwo", ""])]);
    assert_eq!(d.row_window(0, 1), d.rows());
}

#[test]
fn every_record_has_the_tracked_column_count() {
    let d = CsvData::from_bytes(b"a,b,c\n1,2,3\n4,5,6\n").unwrap();
    for r in d.records() {
        assert_eq!(r.len(), d.column_lengths().len());
    }
}
