use port_scanner::report::format_open_line;
use port_scanner::timestamp::Timestamp;
use port_scanner::tokens::extract_port_number;

#[test]
fn extracts_port_from_report_line() {
    assert_eq!(
        extract_port_number("Port 8001 is open - Scanned at 2024-06-07 18:02:03"),
        Some(8001)
    );
    assert_eq!(extract_port_number("Port 65535 is open"), Some(65535));
    assert_eq!(extract_port_number("Port 1 is open"), Some(1));
}

#[test]
fn rejects_missing_second_token() {
    assert_eq!(extract_port_number(""), None);
    assert_eq!(extract_port_number("Port"), None);
    assert_eq!(extract_port_number("Port   "), None);
    assert_eq!(extract_port_number("   "), None);
}

#[test]
fn rejects_non_numeric_second_token() {
    assert_eq!(extract_port_number("a b"), None);
    assert_eq!(extract_port_number("Port 12ab is open"), None);
    assert_eq!(extract_port_number("Port -1 is open"), None);
}

#[test]
fn accepts_a_leading_plus_sign() {
    assert_eq!(extract_port_number("a +1"), Some(1));
    assert_eq!(extract_port_number("Port +8001 is open"), Some(8001));
    assert_eq!(extract_port_number("a +"), None);
    assert_eq!(extract_port_number("a ++1"), None);
    assert_eq!(extract_port_number("a 1+"), None);
}

#[test]
fn splits_on_unicode_whitespace() {
    assert_eq!(extract_port_number("a\u{b}1 x"), Some(1));
    assert_eq!(extract_port_number("a\u{a0}2 y"), Some(2));
    assert_eq!(extract_port_number("a\u{2003}3 z"), Some(3));
    assert_eq!(extract_port_number("a\u{85}4"), Some(4));
    assert_eq!(extract_port_number("\u{3000}a\u{2028}5"), Some(5));
}

#[test]
fn rejects_port_out_of_range() {
    assert_eq!(extract_port_number("Port 65536 is open"), None);
    assert_eq!(extract_port_number("Port 99999999999999999999 is open"), None);
}

#[test]
fn tolerates_extra_whitespace() {
    assert_eq!(extract_port_number("  Port   22  tail"), Some(22));
    assert_eq!(extract_port_number("Port\t443\topen"), Some(443));
    assert_eq!(extract_port_number("Port\n80\n"), Some(80));
    assert_eq!(extract_port_number("x 007"), Some(7));
}

#[test]
fn every_report_line_names_its_port() {
    let stamp = Timestamp {
        year: 2024,
        month: 6,
        day: 7,
        hour: 18,
        minute: 2,
        second: 3,
        epoch: 1_717_783_323,
    };
    for port in [1u16, 80, 8001, 65535] {
        let line = format_open_line(port, &stamp);
        assert_eq!(extract_port_number(&line), Some(port));
    }
}
