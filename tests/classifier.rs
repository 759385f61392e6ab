use vrc_log_unrotate::classifier::{find_header, ClassifyError, LogDate, VRCLogfile, HEAD_LEN};
use vrc_log_unrotate::path::FsPath;

fn path() -> FsPath {
    FsPath::new(b"W".to_vec()).join(b"output_log_24-03-07.txt".to_vec())
}

#[test]
fn header_on_first_line_gives_its_date() {
    let head = b"2024.03.07 12:34:56 Log        -  Foo";
    let r = VRCLogfile::new(path(), head).unwrap().unwrap();
    assert_eq!(r.date, LogDate { year: 2024, month: 3, day: 7 });
    assert_eq!(r.path.parts, path().parts);
}

#[test]
fn header_after_a_first_line_is_found() {
    let head = b"\xEF\xBB\xBF\n2024.12.31 23:59:59 x     ";
    assert_eq!(head.len(), HEAD_LEN);
    assert_eq!(find_header(head), Some(4));
    let r = VRCLogfile::new(path(), head).unwrap().unwrap();
    assert_eq!(r.date, LogDate { year: 2024, month: 12, day: 31 });
}

#[test]
fn header_not_at_line_start_is_no_record() {
    let head = b"xx2024.03.07 12:34:56 Foo bar.";
    assert_eq!(head.len(), HEAD_LEN);
    assert!(VRCLogfile::new(path(), head).unwrap().is_none());
}

#[test]
fn header_past_the_window_is_no_record() {
    let head = b"0123456789abc\n2024.03.07 12:34:56 Foo";
    assert!(VRCLogfile::new(path(), head).unwrap().is_none());
}

#[test]
fn no_header_is_no_record_not_an_error() {
    let head = b"this is not a log file at all, really";
    assert!(matches!(VRCLogfile::new(path(), head), Ok(None)));
}

#[test]
fn short_head_is_an_error() {
    let head = b"2024.03.07 12:34:56 Foo";
    assert!(head.len() < HEAD_LEN);
    assert!(matches!(VRCLogfile::new(path(), head), Err(ClassifyError::Truncated)));
    assert!(matches!(VRCLogfile::new(path(), b""), Err(ClassifyError::Truncated)));
}

#[test]
fn nonexistent_day_is_an_error() {
    let head = b"2023.02.29 00:00:01 Foo bar baz";
    assert!(matches!(
        VRCLogfile::new(path(), head),
        Err(ClassifyError::InvalidDate { year: 2023, month: 2, day: 29 })
    ));
    let head = b"2024.13.01 00:00:01 Foo bar baz";
    assert!(matches!(VRCLogfile::new(path(), head), Err(ClassifyError::InvalidDate { .. })));
}

#[test]
fn leap_day_is_a_date() {
    let head = b"2024.02.29 00:00:01 Foo bar baz";
    let r = VRCLogfile::new(path(), head).unwrap().unwrap();
    assert_eq!(r.date, LogDate { year: 2024, month: 2, day: 29 });
    let head = b"2000.02.29 00:00:01 Foo bar baz";
    assert!(VRCLogfile::new(path(), head).unwrap().is_some());
    let head = b"1900.02.29 00:00:01 Foo bar baz";
    assert!(VRCLogfile::new(path(), head).is_err());
}
