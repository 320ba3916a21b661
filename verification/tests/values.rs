use price_tracker::decimal::{decimal, scan_digits};
use price_tracker::price::{is_decimal, Price};
use price_tracker::timestamp::{is_stamp, Timestamp};

#[test]
fn price_zero_is_the_text_0() {
    assert_eq!(Price::zero().text(), "0");
    assert_eq!(Price::zero().text().parse::<f64>().unwrap(), 0.0);
}

#[test]
fn price_accepts_decimal_text() {
    for text in [
        "0",
        "7",
        "67000.5",
        "512.34",
        "-12.25",
        "-0",
        "0.0000001",
        "1000000000000000000000",
        "NaN",
        "inf",
        "-inf",
    ] {
        assert!(is_decimal(text), "{text}");
        let price = Price::from_text(text.to_string()).unwrap();
        assert_eq!(price.text(), text);
    }
}

#[test]
fn price_refuses_other_text() {
    for text in [
        "", "-", ".", "1.", ".5", "-.5", "1..2", "1.2.3", "1,5", "1e5", "+1", " 1", "1 ", "1\n",
        "--1", "nan", "Inf", "-NaN", "infinity", "not-a-number", "12a", "١٢", "1.٢",
    ] {
        assert!(!is_decimal(text), "{text:?}");
        assert_eq!(Price::from_text(text.to_string()), None, "{text:?}");
    }
}

#[test]
fn price_holds_what_any_double_prints_as() {
    for value in [
        0.0,
        -0.0,
        1.0,
        67000.5,
        512.34,
        -3.75,
        1e300,
        1e-300,
        f64::MAX,
        f64::MIN,
        f64::MIN_POSITIVE,
        f64::EPSILON,
        f64::INFINITY,
        f64::NEG_INFINITY,
        f64::NAN,
    ] {
        let text = value.to_string();
        let price = Price::from_text(text.clone()).unwrap();
        assert_eq!(price.text(), text);
        let back: f64 = price.text().parse().unwrap();
        assert!(back == value || (back.is_nan() && value.is_nan()));
    }
}

#[test]
fn price_clone_keeps_the_text() {
    let price = Price::from_text("67000.5".to_string()).unwrap();
    assert_eq!(price.clone(), price);
    assert_eq!(price.clone().text(), "67000.5");
}

#[test]
fn timestamp_unset_is_empty() {
    assert_eq!(Timestamp::unset().text(), "");
}

#[test]
fn timestamp_accepts_rfc3339_text() {
    for text in [
        "",
        "1996-12-19T16:39:57-08:00",
        "2024-05-01T12:00:00+00:00",
        "2024-05-01T12:00:00.123456789+02:00",
        "2024-05-01T12:00:00Z",
        "2024-05-01T12:00:00.5Z",
        "0000-01-01T00:00:00+00:00",
        "-0001-12-31T23:59:60-23:59",
        "+12345-01-01T00:00:00.000+24:00",
    ] {
        assert!(is_stamp(text), "{text}");
        let stamp = Timestamp::from_text(text.to_string()).unwrap();
        assert_eq!(stamp.text(), text);
        assert_eq!(stamp.clone(), stamp);
    }
}

#[test]
fn timestamp_is_held_to_the_form_and_not_to_a_calendar() {
    for text in ["2024-99-99T99:99:99+99:99", "2023-02-30T24:60:61Z", "0000-00-00T00:00:00-00:00"] {
        assert!(is_stamp(text), "{text}");
        assert!(Timestamp::from_text(text.to_string()).is_some(), "{text}");
    }
}

#[test]
fn timestamp_refuses_separators_and_letters() {
    for text in [
        "2024-05-01T12:00:00,5Z",
        "2024-05-01 12:00:00Z",
        "2024-05-01T12:00:00Z\n",
        "timestamp",
        "T",
        "Z",
        "2024",
        "2024-05-01",
        "12:00:00Z",
        "2024-05-01T12:00:00",
        "2024-05-01T12:00Z",
        "2024-05-01T12:00:00.Z",
        "2024-05-01T12:00:00.5",
        "2024-05-01T12:00:00+0200",
        "2024-05-01T12:00:00+02:00Z",
        "2024-05-01T12:00:00ZZ",
        "2024-5-01T12:00:00Z",
        "24-05-01T12:00:00Z",
        "20240-05-01T12:00:00Z",
        "+024-05-01T12:00:00Z",
        "2024-05-01T12:00:00+2:00",
        "2024-05-01T12:00:00 +02:00",
        "2024/05/01T12:00:00Z",
        "2024-05-01T12.00.00Z",
        "2024-05-01t12:00:00z",
        "２０２４",
    ] {
        assert!(!is_stamp(text), "{text:?}");
        assert_eq!(Timestamp::from_text(text.to_string()), None, "{text:?}");
    }
}

#[test]
fn timestamp_now_reads_as_rfc3339() {
    let before = chrono::Local::now();
    let stamp = Timestamp::now();
    let after = chrono::Local::now();
    assert!(!stamp.text().is_empty());
    assert!(is_stamp(stamp.text()));
    let read = chrono::DateTime::parse_from_rfc3339(stamp.text()).unwrap();
    assert!(before <= read && read <= after);
}

#[test]
fn timestamp_now_does_not_go_back() {
    let first = Timestamp::now();
    let second = Timestamp::now();
    let first = chrono::DateTime::parse_from_rfc3339(first.text()).unwrap();
    let second = chrono::DateTime::parse_from_rfc3339(second.text()).unwrap();
    assert!(first <= second);
}

#[test]
fn decimal_writes_without_leading_zeros() {
    assert_eq!(decimal(0), "0");
    assert_eq!(decimal(7), "7");
    assert_eq!(decimal(10), "10");
    assert_eq!(decimal(404), "404");
    assert_eq!(decimal(1000), "1000");
    assert_eq!(decimal(65535), "65535");
    for n in 0..=u16::MAX {
        assert_eq!(decimal(n), n.to_string());
    }
}

#[test]
fn scan_digits_stops_at_the_first_other_character() {
    assert_eq!(scan_digits(b"123abc", 0), 3);
    assert_eq!(scan_digits(b"123abc", 1), 3);
    assert_eq!(scan_digits(b"123abc", 3), 3);
    assert_eq!(scan_digits(b"123abc", 6), 6);
    assert_eq!(scan_digits(b"2024-05", 0), 4);
    assert_eq!(scan_digits(b"2024-05", 5), 7);
    assert_eq!(scan_digits(b"", 0), 0);
    assert_eq!(scan_digits(b"/:", 0), 0);
    assert_eq!(scan_digits(b"0123456789", 0), 10);
}
