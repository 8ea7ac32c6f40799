use chrono::{DateTime, Utc};
use kiro::expiry::{classify_expiry, normalize_expires_at, resolve_expiry, Expiry};

fn normalized(raw: &str) -> Option<String> {
    normalize_expires_at(raw)
}

#[test]
fn normalizes_epoch_millis() {
    assert_eq!(
        normalize_expires_at("1700000000000"),
        Some("2023-11-14T22:13:20+00:00".to_string())
    );
}

#[test]
fn seconds_and_milliseconds_agree() {
    assert_eq!(normalized("1700000000"), normalized("1700000000000"));
    assert_eq!(normalized("1700000000"), normalized("1700000000999"));
    assert_eq!(normalized("0"), Some("1970-01-01T00:00:00+00:00".to_string()));
    assert_eq!(
        normalized("0001700000000"),
        Some("1970-01-20T16:13:20+00:00".to_string())
    );
}

#[test]
fn timestamps_are_converted_to_utc() {
    assert_eq!(
        normalized("2025-01-01T00:00:00Z"),
        Some("2025-01-01T00:00:00+00:00".to_string())
    );
    assert_eq!(
        normalized("  2025-01-01T08:30:00.250+08:00\n"),
        Some("2025-01-01T00:30:00.250+00:00".to_string())
    );
    assert_eq!(
        normalized("2016-12-31T23:59:60Z"),
        Some("2016-12-31T23:59:60+00:00".to_string())
    );
}

#[test]
fn blank_expiry_is_none() {
    assert_eq!(normalized(""), None);
    assert_eq!(normalized(" \t\u{3000}"), None);
}

#[test]
fn other_texts_are_kept() {
    assert_eq!(normalized(" tomorrow "), Some("tomorrow".to_string()));
    assert_eq!(normalized("-5"), Some("-5".to_string()));
    assert_eq!(normalized("2025-02-30T00:00:00Z"), Some("2025-02-30T00:00:00Z".to_string()));
}

#[test]
fn numbers_outside_the_calendar_are_dropped() {
    assert_eq!(
        normalized("8210266876799"),
        Some("2230-03-05T05:41:16+00:00".to_string())
    );
    assert_eq!(
        normalized("08210266876799"),
        Some("+262142-12-31T23:59:59+00:00".to_string())
    );
    assert_eq!(normalized("08210266876800"), None);
    assert_eq!(normalized("9223372036854775807"), None);
}

#[test]
fn numbers_beyond_the_range_are_kept() {
    assert_eq!(
        normalized("9223372036854775808"),
        Some("9223372036854775808".to_string())
    );
}

#[test]
fn normalizing_twice_changes_nothing() {
    for raw in [
        "1700000000000",
        "253402300800",
        "08210266876799",
        "2025-01-01T08:30:00.123456+08:00",
        "2016-12-31T23:59:60.5Z",
        "0000-01-01T00:00:00+00:01",
        "tomorrow",
        "9223372036854775808",
    ] {
        let once = normalized(raw).unwrap();
        assert_eq!(normalized(&once), Some(once.clone()), "{}", raw);
    }
}

#[test]
fn expiry_kinds_are_told_apart() {
    assert!(matches!(classify_expiry("  "), Expiry::Absent));
    assert!(matches!(classify_expiry("1700000000123"), Expiry::Seconds(1700000000)));
    assert!(matches!(classify_expiry("170000000012"), Expiry::Seconds(170000000012)));
    assert!(matches!(classify_expiry("99999999999999999999"), Expiry::TooLarge(_)));
    assert!(matches!(classify_expiry(" x "), Expiry::Text(t) if t == "x"));
    // Digits of other scripts are text.
    assert!(matches!(classify_expiry("\u{0661}\u{0662}"), Expiry::Text(_)));
}

#[test]
fn missing_stamp_drops_numbers_and_keeps_texts() {
    assert_eq!(resolve_expiry(Expiry::Seconds(1), None), None);
    assert_eq!(
        resolve_expiry(Expiry::Seconds(1), Some("s".to_string())),
        Some("s".to_string())
    );
    assert_eq!(
        resolve_expiry(Expiry::Text("t".to_string()), None),
        Some("t".to_string())
    );
    assert_eq!(
        resolve_expiry(Expiry::Text("t".to_string()), Some("s".to_string())),
        Some("s".to_string())
    );
    assert_eq!(resolve_expiry(Expiry::Absent, Some("s".to_string())), None);
    assert_eq!(
        resolve_expiry(Expiry::TooLarge("9".to_string()), Some("s".to_string())),
        Some("9".to_string())
    );
}

#[test]
fn outer_whitespace_does_not_matter() {
    for raw in ["1700000000", "2025-01-01T00:00:00+01:00", "soon", ""] {
        assert_eq!(normalized(&format!("\t {}\u{3000}\n", raw)), normalized(raw));
    }
}

#[test]
fn kept_timestamps_denote_the_same_instant() {
    for raw in [
        "2025-01-01T08:30:00.250+08:00",
        "1996-12-19T16:39:57-08:00",
        "2016-12-31T18:59:60.5-05:00",
        "9999-12-31T23:59:59Z",
    ] {
        let kept = normalized(raw).unwrap();
        assert!(kept.ends_with("+00:00"));
        assert_eq!(
            DateTime::parse_from_rfc3339(&kept).unwrap().with_timezone(&Utc),
            DateTime::parse_from_rfc3339(raw).unwrap().with_timezone(&Utc)
        );
    }
    // A signed year is written, and no longer parses.
    let kept = normalized("9999-12-31T23:59:59-00:01").unwrap();
    assert_eq!(kept, "+10000-01-01T00:00:59+00:00");
    assert!(DateTime::parse_from_rfc3339(&kept).is_err());
}
