//! Rows, timestamps and the header check.

use csv_logger::{
    add_csv_column, add_csv_line, matches_header, vec_to_string, white_space, ErrorCode, Event,
    LogStruct, Timestamp,
};

fn strings(values: &[&str]) -> Vec<String> {
    values.iter().map(|v| v.to_string()).collect()
}

fn text_of(year: i32, month: u32, day: u32, hour: u32, minute: u32, second: u32) -> String {
    Timestamp::new(year, month, day, hour, minute, second).unwrap().to_text()
}

#[test]
fn vec_to_string_puts_a_comma_before_each_value() {
    assert_eq!(vec_to_string(&strings(&["1", "2", "3"])), ",1,2,3");
    assert_eq!(vec_to_string(&strings(&["only"])), ",only");
    assert_eq!(vec_to_string(&strings(&["", ""])), ",,");
}

#[test]
fn vec_to_string_of_nothing_is_empty() {
    assert_eq!(vec_to_string(&Vec::new()), "");
}

#[test]
fn vec_to_string_keeps_values_as_they_are() {
    let values = strings(&["a,b", "c\nd", "\u{e9}t\u{e9}"]);
    assert_eq!(vec_to_string(&values), ",a,b,c\nd,\u{e9}t\u{e9}");
}

#[test]
fn to_line_is_timestamp_values_newline() {
    let date_time = Timestamp::new(2015, 9, 5, 23, 56, 4).unwrap();
    let record = LogStruct::new(date_time, strings(&["1", "2", "3"]));
    assert_eq!(record.to_line(), "2015-09-05 23:56:04,1,2,3\n");
}

#[test]
fn to_line_without_values_is_timestamp_and_newline() {
    let record = LogStruct::new(Timestamp::new(2015, 9, 5, 23, 56, 4).unwrap(), Vec::new());
    assert_eq!(record.to_line(), "2015-09-05 23:56:04\n");
}

#[test]
fn timestamp_text_pads_with_zeros() {
    assert_eq!(text_of(2024, 1, 2, 3, 4, 5), "2024-01-02 03:04:05");
    assert_eq!(text_of(2024, 12, 31, 23, 59, 59), "2024-12-31 23:59:59");
    assert_eq!(text_of(2024, 10, 10, 0, 0, 0), "2024-10-10 00:00:00");
}

#[test]
fn timestamp_text_of_early_years_has_four_digits() {
    assert_eq!(text_of(0, 1, 1, 0, 0, 0), "0000-01-01 00:00:00");
    assert_eq!(text_of(7, 1, 1, 0, 0, 0), "0007-01-01 00:00:00");
    assert_eq!(text_of(999, 1, 1, 0, 0, 0), "0999-01-01 00:00:00");
    assert_eq!(text_of(1000, 1, 1, 0, 0, 0), "1000-01-01 00:00:00");
    assert_eq!(text_of(9999, 12, 31, 0, 0, 0), "9999-12-31 00:00:00");
}

#[test]
fn timestamp_text_of_far_years_has_a_sign() {
    assert_eq!(text_of(10000, 1, 1, 0, 0, 0), "+10000-01-01 00:00:00");
    assert_eq!(text_of(262142, 12, 31, 0, 0, 0), "+262142-12-31 00:00:00");
    assert_eq!(text_of(-1, 1, 1, 0, 0, 0), "-0001-01-01 00:00:00");
    assert_eq!(text_of(-9999, 1, 1, 0, 0, 0), "-9999-01-01 00:00:00");
    assert_eq!(text_of(-10000, 1, 1, 0, 0, 0), "-10000-01-01 00:00:00");
    assert_eq!(text_of(-262143, 1, 1, 0, 0, 0), "-262143-01-01 00:00:00");
}

#[test]
fn timestamp_takes_days_that_exist() {
    assert!(Timestamp::new(2024, 2, 29, 0, 0, 0).is_some());
    assert!(Timestamp::new(2000, 2, 29, 0, 0, 0).is_some());
    assert!(Timestamp::new(-4, 2, 29, 0, 0, 0).is_some());
    assert!(Timestamp::new(2023, 4, 30, 0, 0, 0).is_some());
    assert!(Timestamp::new(2023, 1, 31, 23, 59, 59).is_some());
}

#[test]
fn timestamp_refuses_days_that_do_not_exist() {
    assert!(Timestamp::new(2023, 2, 29, 0, 0, 0).is_none());
    assert!(Timestamp::new(1900, 2, 29, 0, 0, 0).is_none());
    assert!(Timestamp::new(-100, 2, 29, 0, 0, 0).is_none());
    assert!(Timestamp::new(2023, 4, 31, 0, 0, 0).is_none());
    assert!(Timestamp::new(2023, 0, 1, 0, 0, 0).is_none());
    assert!(Timestamp::new(2023, 13, 1, 0, 0, 0).is_none());
    assert!(Timestamp::new(2023, 1, 0, 0, 0, 0).is_none());
    assert!(Timestamp::new(2023, 1, 32, 0, 0, 0).is_none());
}

#[test]
fn timestamp_refuses_times_that_do_not_exist() {
    assert!(Timestamp::new(2023, 1, 1, 24, 0, 0).is_none());
    assert!(Timestamp::new(2023, 1, 1, 0, 60, 0).is_none());
    assert!(Timestamp::new(2023, 1, 1, 0, 0, 60).is_none());
}

#[test]
fn timestamp_refuses_years_out_of_range() {
    assert!(Timestamp::new(262143, 1, 1, 0, 0, 0).is_none());
    assert!(Timestamp::new(-262144, 1, 1, 0, 0, 0).is_none());
    assert!(Timestamp::new(i32::MAX, 1, 1, 0, 0, 0).is_none());
    assert!(Timestamp::new(i32::MIN, 1, 1, 0, 0, 0).is_none());
}

#[test]
fn timestamp_agrees_with_chrono_on_which_days_exist() {
    let years = [
        -262144, -262143, -401, -400, -100, -4, -1, 0, 1, 4, 100, 1900, 2000, 2023, 2024, 262142,
        262143,
    ];
    for year in years {
        for month in 0..=13 {
            for day in [0, 1, 28, 29, 30, 31, 32] {
                let ours = Timestamp::new(year, month, day, 0, 0, 0).is_some();
                let theirs = chrono::NaiveDate::from_ymd_opt(year, month, day).is_some();
                assert_eq!(ours, theirs, "{}-{}-{}", year, month, day);
            }
        }
    }
}

fn first_line(line: &str) -> Event {
    Event::FirstLine { line: Some(line.to_string()) }
}

fn header_line_of(column: &str) -> Result<Option<String>, ErrorCode> {
    Ok(Some(format!("{}\n", column)))
}

#[test]
fn header_is_written_to_a_file_without_text() {
    let event = Event::FirstLine { line: None };
    assert_eq!(add_csv_column("date time,c1", &event), Ok(Some("date time,c1\n".to_string())));
}

#[test]
fn header_is_not_written_again() {
    assert_eq!(add_csv_column("date time,c1", &first_line("date time,c1")), Ok(None));
}

#[test]
fn header_is_written_behind_another_first_line() {
    let expected = header_line_of("date time,c1");
    assert_eq!(add_csv_column("date time,c1", &first_line("date time,c2")), expected);
    assert_eq!(add_csv_column("date time,c1", &first_line("date time")), expected);
    assert_eq!(add_csv_column("date time,c1", &first_line("date time,c1,c2")), expected);
    assert_eq!(add_csv_column("date time,c1", &first_line("")), expected);
}

#[test]
fn header_check_fails_where_the_file_could_not_be_read() {
    assert_eq!(
        add_csv_column("date time,c1", &Event::Failed),
        Err(ErrorCode::FailedAddCsvColumn)
    );
    assert_eq!(
        add_csv_column("date time,c1", &Event::Written),
        Err(ErrorCode::FailedAddCsvColumn)
    );
}

#[test]
fn header_check_ignores_white_space_at_the_end() {
    let tails = [
        " ", "\t", "\r", "\n", "\u{b}", "\u{c}", "\u{85}", "\u{a0}", "\u{1680}", "\u{2000}",
        "\u{2005}", "\u{200a}", "\u{2028}", "\u{2029}", "\u{202f}", "\u{205f}", "\u{3000}",
        " \t \r",
    ];
    for tail in tails {
        let line = format!("date time,c1{}", tail);
        assert_eq!(add_csv_column("date time,c1", &first_line(&line)), Ok(None), "{:?}", line);
        assert_eq!(add_csv_column(&line, &first_line("date time,c1")), Ok(None), "{:?}", line);
    }
}

#[test]
fn header_check_keeps_what_is_no_white_space() {
    let tails = [
        "\u{200b}", "\u{180e}", "\u{feff}", "\u{0}", "\u{8}", "\u{e}", "\u{1f}", "\u{84}",
        "\u{86}", "\u{2060}", "\u{200c}", "\u{2027}", "\u{3001}", "x", ",",
    ];
    for tail in tails {
        let line = format!("date time,c1{}", tail);
        assert_eq!(
            add_csv_column("date time,c1", &first_line(&line)),
            header_line_of("date time,c1"),
            "{:?}",
            line
        );
    }
}

#[test]
fn header_check_keeps_white_space_at_the_front_and_inside() {
    let expected = header_line_of("date time,c1");
    assert_eq!(add_csv_column("date time,c1", &first_line(" date time,c1")), expected);
    assert_eq!(add_csv_column("date time,c1", &first_line("date  time,c1")), expected);
    assert_eq!(add_csv_column("date time,c1", &first_line("date time, c1")), expected);
}

#[test]
fn header_with_white_space_at_its_end_is_written_as_it_is() {
    let event = Event::FirstLine { line: None };
    assert_eq!(add_csv_column("date time,c1 ", &event), header_line_of("date time,c1 "));
    assert_eq!(add_csv_column("date time,c1 ", &first_line("date time,c1")), Ok(None));
}

#[test]
fn row_appender_reports_a_failed_append_as_data_failure() {
    assert_eq!(add_csv_line(&Event::Written), Ok(()));
    assert_eq!(add_csv_line(&Event::Failed), Err(ErrorCode::FailedAddCsvData));
    assert_eq!(
        add_csv_line(&Event::FirstLine { line: None }),
        Err(ErrorCode::FailedAddCsvData)
    );
}

#[test]
fn white_space_is_the_unicode_property() {
    for c in '\0'..=char::MAX {
        assert_eq!(white_space(c), c.is_whitespace(), "{:?}", c);
    }
    assert_eq!(('\0'..=char::MAX).filter(|c| white_space(*c)).count(), 25);
}

#[test]
fn matches_header_compares_without_white_space_at_the_end() {
    let texts = [
        "", " ", "\t\n", "a", "a ", "a  \u{3000}", " a", "a b", "a b ", "ab", "a\u{a0}", "\u{a0}a",
        "date time,c1", "date time,c1\r", "date time,c1 \n", "date time,c1,", "date time,c",
        "date time,c1\u{200b}", "\u{e9}", "\u{e9} ", "\u{e9}\u{2003}\u{2003}", "e",
    ];
    for line in texts {
        for column in texts {
            assert_eq!(
                matches_header(line, column),
                line.trim_end() == column.trim_end(),
                "{:?} {:?}",
                line,
                column
            );
        }
    }
}

#[test]
fn matches_header_is_exact_in_front_of_the_white_space() {
    assert!(matches_header("date time,c1", "date time,c1"));
    assert!(matches_header("date time,c1  ", "date time,c1\t"));
    assert!(matches_header("", "   "));
    assert!(!matches_header("date time,c1", "date time,c2"));
    assert!(!matches_header("date time,c1", "date time,c1 x"));
    assert!(!matches_header("date time,c1", "Date time,c1"));
    assert!(!matches_header(" date time,c1", "date time,c1"));
}
