use port_scanner::digits::{i64_to_string, u64_to_string};
use port_scanner::report::{format_open_line, format_summary_line};
use port_scanner::timestamp::{format_timestamp, Timestamp};

fn ts(year: i32, month: u8, day: u8, hour: u8, minute: u8, second: u8) -> Timestamp {
    Timestamp { year, month, day, hour, minute, second, epoch: 0 }
}

#[test]
fn decimal_rendering() {
    assert_eq!(u64_to_string(0), "0");
    assert_eq!(u64_to_string(7), "7");
    assert_eq!(u64_to_string(80), "80");
    assert_eq!(u64_to_string(8001), "8001");
    assert_eq!(u64_to_string(65535), "65535");
    assert_eq!(u64_to_string(1234567890123), "1234567890123");
}

#[test]
fn signed_decimal_rendering() {
    assert_eq!(i64_to_string(0), "0");
    assert_eq!(i64_to_string(42), "42");
    assert_eq!(i64_to_string(-1), "-1");
    assert_eq!(i64_to_string(-6300), "-6300");
    assert_eq!(i64_to_string(i64::MIN), "-9223372036854775808");
}

#[test]
fn timestamp_rendering() {
    assert_eq!(format_timestamp(&ts(2024, 1, 31, 0, 5, 59)), "2024-01-31 00:05:59");
    assert_eq!(format_timestamp(&ts(999, 12, 1, 23, 0, 0)), "0999-12-01 23:00:00");
    assert_eq!(format_timestamp(&ts(-44, 3, 15, 12, 30, 1)), "-0044-03-15 12:30:01");
    assert_eq!(format_timestamp(&ts(10000, 1, 1, 0, 0, 0)), "+10000-01-01 00:00:00");
}

#[test]
fn open_line_rendering() {
    let stamp = ts(2024, 6, 7, 18, 2, 3);
    assert_eq!(
        format_open_line(8001, &stamp),
        "Port 8001 is open - Scanned at 2024-06-07 18:02:03"
    );
    assert_eq!(
        format_open_line(22, &stamp),
        "Port 22 is open - Scanned at 2024-06-07 18:02:03"
    );
}

#[test]
fn summary_line_rendering() {
    assert_eq!(format_summary_line(42), "Scanning completed in 42 seconds");
    assert_eq!(format_summary_line(0), "Scanning completed in 0 seconds");
    assert_eq!(format_summary_line(-3), "Scanning completed in -3 seconds");
}

#[test]
fn clock_reading_is_well_formed() {
    let t = port_scanner::timestamp::now();
    assert!((1..=12).contains(&t.month));
    assert!((1..=31).contains(&t.day));
    assert!(t.hour <= 23);
    assert!(t.minute <= 59);
    assert!(t.second <= 59);
    // A clock that runs during this decade reads well after the epoch.
    assert!(t.epoch > 1_500_000_000);
    assert!(t.year >= 2020);
}
