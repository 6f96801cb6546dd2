use flamingo_agent::metrics::{
    collect, format_utc, rss_bytes, rss_from_reading, sample, MetricsError, UtcTime,
};

#[test]
fn utc_formats_with_millis_and_z() {
    // 2026-01-02T03:04:05Z and 6 milliseconds.
    let t = UtcTime::from_timestamp(1_767_323_045, 6_000_000).unwrap();
    assert_eq!(format_utc(t), "2026-01-02T03:04:05.006Z");
}

#[test]
fn rss_is_positive_and_collect_produces_a_recent_sample() {
    assert!(rss_bytes().unwrap() > 0);

    let now = chrono::Utc::now();
    let before = UtcTime::from_timestamp(now.timestamp(), now.timestamp_subsec_nanos()).unwrap();
    let m = collect().unwrap();
    assert!(m.utc >= before);
    assert!(m.rss_bytes > 0);
    assert!(m.utc_string().ends_with('Z'));
}

#[test]
fn resident_memory_is_at_least_a_mebibyte() {
    assert!(rss_bytes().unwrap() >= 1 << 20);
}

#[test]
fn a_zero_or_missing_reading_is_unavailable() {
    assert_eq!(rss_from_reading(Some(42)), Ok(42));
    assert_eq!(rss_from_reading(Some(0)), Err(MetricsError::RssUnavailable));
    assert_eq!(rss_from_reading(None), Err(MetricsError::RssUnavailable));
    let t = UtcTime::from_timestamp(0, 0).unwrap();
    assert_eq!(sample(t, Some(7)).unwrap().rss_bytes, 7);
    assert_eq!(sample(t, None).unwrap_err(), MetricsError::RssUnavailable);
    assert_eq!(
        MetricsError::RssUnavailable.message(),
        "process memory statistics are unavailable"
    );
}

#[test]
fn instants_cover_the_range_of_the_calendar() {
    assert_eq!(
        format_utc(UtcTime::from_timestamp(0, 0).unwrap()),
        "1970-01-01T00:00:00.000Z"
    );
    assert_eq!(
        format_utc(UtcTime::from_timestamp(-1, 999_999_999).unwrap()),
        "1969-12-31T23:59:59.999Z"
    );
    assert_eq!(
        format_utc(UtcTime::from_timestamp(253_402_300_799, 0).unwrap()),
        "9999-12-31T23:59:59.000Z"
    );
    assert_eq!(
        format_utc(UtcTime::from_timestamp(-62_167_219_200, 0).unwrap()),
        "0000-01-01T00:00:00.000Z"
    );
    assert_eq!(
        format_utc(UtcTime::from_timestamp(59, 1_500_000_000).unwrap()),
        "1970-01-01T00:00:60.500Z"
    );
    assert!(UtcTime::from_timestamp(58, 1_500_000_000).is_none());
    assert!(UtcTime::from_timestamp(59, 2_000_000_000).is_none());
}

#[test]
fn the_ends_of_the_calendar_agree_with_the_formatter() {
    for (secs, inside) in [
        (-8_334_601_228_801, false),
        (-8_334_601_228_800, true),
        (8_210_266_876_799, true),
        (8_210_266_876_800, false),
    ] {
        assert_eq!(UtcTime::from_timestamp(secs, 0).is_some(), inside);
        assert_eq!(
            chrono::DateTime::<chrono::Utc>::from_timestamp(secs, 0).is_some(),
            inside
        );
    }
    let last = UtcTime::from_timestamp(8_210_266_876_799, 0).unwrap();
    assert_eq!(format_utc(last), "+262142-12-31T23:59:59.000Z");
    let first = UtcTime::from_timestamp(-8_334_601_228_800, 0).unwrap();
    assert_eq!(format_utc(first), "-262143-01-01T00:00:00.000Z");
    assert_eq!((last.timestamp(), last.subsec_nanos()), (8_210_266_876_799, 0));
}

#[test]
fn dates_follow_the_calendar() {
    for (days, date) in [
        (-719_528, "0000-01-01"),
        (-719_529, "-0001-12-31"),
        (-719_469, "0000-02-29"),
        (-719_468, "0000-03-01"),
        (-25_509, "1900-02-28"),
        (-25_508, "1900-03-01"),
        (-1, "1969-12-31"),
        (58, "1970-02-28"),
        (59, "1970-03-01"),
        (10_956, "1999-12-31"),
        (11_016, "2000-02-29"),
        (11_017, "2000-03-01"),
        (19_782, "2024-02-29"),
        (20_820, "2027-01-02"),
        (47_540, "2100-02-28"),
        (47_541, "2100-03-01"),
        (2_932_896, "9999-12-31"),
        (2_932_897, "+10000-01-01"),
        (-95_026_237, "-258204-12-31"),
    ] {
        let t = UtcTime::from_timestamp(days * 86_400 + 43_200, 0).unwrap();
        assert_eq!(format_utc(t), format!("{date}T12:00:00.000Z"));
    }
}
