use serial_logger::timestamp_from_clock_parts;
use serial_logger::Timestamp;

#[test]
fn format_is_zero_padded_iso_like() {
    let ts = Timestamp::new(2024, 1, 2, 3, 4, 5).unwrap();
    assert_eq!(ts.format(), b"2024-01-02,03:04:05,".to_vec());
}

#[test]
fn format_handles_wide_fields() {
    let ts = Timestamp::new(9999, 12, 31, 23, 59, 59).unwrap();
    assert_eq!(ts.format(), b"9999-12-31,23:59:59,".to_vec());
}

#[test]
fn format_handles_small_year() {
    let ts = Timestamp::new(7, 10, 9, 0, 0, 0).unwrap();
    assert_eq!(ts.format(), b"0007-10-09,00:00:00,".to_vec());
}

#[test]
fn new_rejects_out_of_range_fields() {
    assert!(Timestamp::new(10000, 1, 1, 0, 0, 0).is_none());
    assert!(Timestamp::new(2024, 0, 1, 0, 0, 0).is_none());
    assert!(Timestamp::new(2024, 13, 1, 0, 0, 0).is_none());
    assert!(Timestamp::new(2024, 1, 0, 0, 0, 0).is_none());
    assert!(Timestamp::new(2024, 1, 32, 0, 0, 0).is_none());
    assert!(Timestamp::new(2024, 1, 1, 24, 0, 0).is_none());
    assert!(Timestamp::new(2024, 1, 1, 0, 60, 0).is_none());
    assert!(Timestamp::new(2024, 1, 1, 0, 0, 60).is_none());
}

#[test]
fn le_orders_lexicographically() {
    let a = Timestamp::new(2024, 1, 2, 3, 4, 5).unwrap();
    let b = Timestamp::new(2024, 1, 2, 3, 4, 6).unwrap();
    let c = Timestamp::new(2025, 1, 1, 0, 0, 0).unwrap();
    assert!(a.le(&a));
    assert!(a.le(&b));
    assert!(!b.le(&a));
    assert!(b.le(&c));
    assert!(!c.le(&a));
}

#[test]
fn clock_parts_are_validated() {
    let ts = timestamp_from_clock_parts(2024, 6, 15, 12, 30, 45).unwrap();
    assert_eq!(ts, Timestamp::new(2024, 6, 15, 12, 30, 45).unwrap());
    assert!(timestamp_from_clock_parts(-1, 6, 15, 12, 30, 45).is_none());
    assert!(timestamp_from_clock_parts(10000, 6, 15, 12, 30, 45).is_none());
    assert!(timestamp_from_clock_parts(2024, 0, 15, 12, 30, 45).is_none());
}

#[test]
fn now_reads_a_calendar_timestamp() {
    // Goes through the chrono-backed clock: the reading must come back as a
    // timestamp whose fields lie in calendar range and format to twenty
    // bytes in the record-prefix shape.
    let ts = serial_logger::now().expect("the clock year fits four digits");
    assert!((1..=12).contains(&ts.month));
    assert!((1..=31).contains(&ts.day));
    assert!(ts.hour < 24);
    assert!(ts.minute < 60);
    assert!(ts.second < 60);
    assert!(ts.year >= 1970);
    let bytes = ts.format();
    assert_eq!(bytes.len(), 20);
    assert_eq!(bytes[4], b'-');
    assert_eq!(bytes[7], b'-');
    assert_eq!(bytes[10], b',');
    assert_eq!(bytes[13], b':');
    assert_eq!(bytes[16], b':');
    assert_eq!(bytes[19], b',');
}
