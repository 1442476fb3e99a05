use change_observer::timestamp::{
    describe_rfc2822, describe_utc, split_millis, TimestampText, RFC2822_FIRST_MS,
    RFC2822_LAST_MS,
};

#[test]
fn split_of_whole_and_fractional_seconds() {
    assert_eq!(split_millis(0), (0, 0));
    assert_eq!(split_millis(999), (0, 999_000_000));
    assert_eq!(split_millis(1000), (1, 0));
    assert_eq!(split_millis(1500), (1, 500_000_000));
    assert_eq!(split_millis(1_700_000_000_123), (1_700_000_000, 123_000_000));
}

#[test]
fn split_before_the_epoch_rounds_towards_the_past() {
    assert_eq!(split_millis(-1), (-1, 999_000_000));
    assert_eq!(split_millis(-999), (-1, 1_000_000));
    assert_eq!(split_millis(-1000), (-1, 0));
    assert_eq!(split_millis(-1001), (-2, 999_000_000));
}

#[test]
fn split_at_the_ends_of_the_range() {
    assert_eq!(split_millis(i64::MAX), (9_223_372_036_854_775, 807_000_000));
    assert_eq!(split_millis(i64::MIN), (-9_223_372_036_854_776, 192_000_000));
}

#[test]
fn rfc2822_of_the_epoch() {
    let stamp = describe_rfc2822(0);
    assert_eq!(stamp.raw, 0);
    assert_eq!(stamp.readable.as_deref(), Some("Thu, 1 Jan 1970 00:00:00 +0000"));
    assert!(!stamp.is_undecoded());
}

#[test]
fn rfc2822_drops_the_milliseconds() {
    let stamp = describe_rfc2822(947_638_923_004);
    assert_eq!(stamp.raw, 947_638_923_004);
    assert_eq!(stamp.readable.as_deref(), Some("Wed, 12 Jan 2000 01:02:03 +0000"));
}

#[test]
fn rfc2822_before_the_epoch() {
    let stamp = describe_rfc2822(-1);
    assert_eq!(stamp.readable.as_deref(), Some("Wed, 31 Dec 1969 23:59:59 +0000"));
}

#[test]
fn rfc2822_at_its_bounds() {
    assert_eq!(RFC2822_FIRST_MS, -62_167_219_200_000);
    assert_eq!(RFC2822_LAST_MS, 253_402_300_799_999);
    let first = describe_rfc2822(RFC2822_FIRST_MS);
    assert_eq!(first.readable.as_deref(), Some("Sat, 1 Jan 0000 00:00:00 +0000"));
    let last = describe_rfc2822(RFC2822_LAST_MS);
    assert_eq!(last.readable.as_deref(), Some("Fri, 31 Dec 9999 23:59:59 +0000"));
}

#[test]
fn rfc2822_beyond_its_bounds_keeps_the_raw_value() {
    for millis in [RFC2822_FIRST_MS - 1, RFC2822_LAST_MS + 1, i64::MIN, i64::MAX] {
        let stamp = describe_rfc2822(millis);
        assert_eq!(stamp, TimestampText { raw: millis, readable: None });
        assert!(stamp.is_undecoded());
    }
}

#[test]
fn utc_form_of_known_instants() {
    let stamp = describe_utc(1_431_648_000_000);
    assert_eq!(stamp.raw, 1_431_648_000_000);
    assert_eq!(stamp.readable.as_deref(), Some("2015-05-15 00:00:00 UTC"));
    let stamp = describe_utc(947_638_923_004);
    assert_eq!(stamp.readable.as_deref(), Some("2000-01-12 01:02:03.004 UTC"));
    assert_eq!(describe_utc(0).readable.as_deref(), Some("1970-01-01 00:00:00 UTC"));
}

#[test]
fn utc_form_before_the_epoch() {
    let stamp = describe_utc(-1);
    assert_eq!(stamp.raw, -1);
    assert_eq!(stamp.readable.as_deref(), Some("1969-12-31 23:59:59.999 UTC"));
}

#[test]
fn utc_form_out_of_the_calendar_keeps_the_raw_value() {
    for millis in [i64::MIN, i64::MAX] {
        assert_eq!(describe_utc(millis), TimestampText { raw: millis, readable: None });
    }
}

#[test]
fn utc_form_past_year_9999() {
    let stamp = describe_utc(RFC2822_LAST_MS + 1);
    assert_eq!(stamp.readable.as_deref(), Some("+10000-01-01 00:00:00 UTC"));
}

#[test]
fn pairing_keeps_both_parts() {
    let stamp = TimestampText::new(7, Some("seven".to_string()));
    assert_eq!(stamp, TimestampText { raw: 7, readable: Some("seven".to_string()) });
    assert!(!stamp.is_undecoded());
    assert!(TimestampText::new(7, None).is_undecoded());
}
