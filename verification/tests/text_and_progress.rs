use photorot::progress::{last_message, progress_complaint, progress_line, progress_report, read_latest, read_progress};
use photorot::text::{decimal_string, int_decimal_string, parse_i32_str};

#[test]
fn decimal_renders_numbers() {
    assert_eq!(decimal_string(0), "0");
    assert_eq!(decimal_string(7), "7");
    assert_eq!(decimal_string(120), "120");
    assert_eq!(decimal_string(u64::MAX), "18446744073709551615");
    assert_eq!(int_decimal_string(-45), "-45");
    assert_eq!(int_decimal_string(i64::MIN), "-9223372036854775808");
}

#[test]
fn parse_follows_std() {
    for s in ["0", "12", "+5", "-5", "2147483647", "-2147483648", "2147483648", "-2147483649", "", "+", "-", "1a", " 1", "٣", "007"] {
        assert_eq!(parse_i32_str(s), s.parse::<i32>().ok(), "input {:?}", s);
    }
}

#[test]
fn progress_report_reads_back() {
    let m = progress_report(3, 17);
    assert_eq!(m, "Progress|3|17");
    assert_eq!(read_progress(&m), Some((3, 17)));
}

#[test]
fn progress_reading_rejects_other_messages() {
    assert_eq!(read_progress("Progress|3"), None);
    assert_eq!(read_progress("Progress|3|4|5"), None);
    assert_eq!(read_progress("progress|3|4"), None);
    assert_eq!(read_progress("Progress|x|4"), None);
    assert_eq!(read_progress("Progress|-9999|4"), None);
    assert_eq!(read_progress("Progress|4|-9999"), None);
    assert_eq!(read_progress("Progress|-2|+4"), Some((-2, 4)));
    assert_eq!(read_progress(" "), None);
}

#[test]
fn progress_line_text() {
    assert_eq!(progress_line(5, 10), "Convert progress: 5 of 10");
    assert_eq!(progress_line(-1, 0), "Convert progress: -1 of 0");
}

#[test]
fn rendered_numbers_read_back() {
    for n in [0i32, 1, -1, 42, -9999, i32::MAX, i32::MIN] {
        assert_eq!(parse_i32_str(&int_decimal_string(n as i64)), Some(n));
    }
}

#[test]
fn last_drained_message() {
    assert_eq!(last_message(vec!["a".to_string(), "b".to_string()]), Some("b".to_string()));
    assert_eq!(last_message(vec![]), None);
    assert_eq!(read_latest(vec!["Progress|1|2".to_string(), "Progress|2|2".to_string()]), Some((2, 2)));
    assert_eq!(read_latest(vec!["Progress|1|2".to_string(), "junk".to_string()]), None);
}

#[test]
fn complaints_about_unread_messages() {
    assert_eq!(progress_complaint("Progress|1|2"), None);
    assert_eq!(progress_complaint("Progress|x|2"), Some("progress numeric not numeric: Progress|x|2".to_string()));
    assert_eq!(progress_complaint("Progress|1|-9999"), Some("progress numeric not numeric: Progress|1|-9999".to_string()));
    assert_eq!(progress_complaint("hello"), Some("message not progress: hello".to_string()));
    assert_eq!(progress_complaint("Progress|1"), Some("message not progress: Progress|1".to_string()));
}
