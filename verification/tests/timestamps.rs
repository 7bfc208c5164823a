use biblfs::datetime::{CreatedTime, DateTime, LastModifiedTime, TimestampError, TimestampForm};

#[test]
fn current_timestamp_form_parses() {
    let t = DateTime::parse("2020-01-01 00:00:00").unwrap();
    assert_eq!(t, DateTime { seconds: 1_577_836_800, nanos: 0 });
}

#[test]
fn millisecond_form_is_padded_and_parses() {
    let t = DateTime::parse("2020-01-01 00:00:00.123").unwrap();
    assert_eq!(t, DateTime { seconds: 1_577_836_800, nanos: 123_000_000 });
}

#[test]
fn nanosecond_form_parses() {
    let t = DateTime::parse("2020-01-01 00:00:00.000000456").unwrap();
    assert_eq!(t, DateTime { seconds: 1_577_836_800, nanos: 456 });
}

#[test]
fn legacy_form_parses() {
    let t = DateTime::parse("2020-01-01 00:00:00:000000000 +0000").unwrap();
    assert_eq!(t, DateTime { seconds: 1_577_836_800, nanos: 0 });
}

#[test]
fn legacy_form_honours_the_offset() {
    let t = DateTime::parse("2020-01-01 02:00:00:000000000 +0200").unwrap();
    assert_eq!(t.unix_timestamp(), 1_577_836_800);
}

#[test]
fn all_three_forms_name_the_same_second() {
    let a = DateTime::parse("2020-01-01 00:00:00").unwrap();
    let b = DateTime::parse("2020-01-01 00:00:00.123").unwrap();
    let c = DateTime::parse("2020-01-01 00:00:00:000000000 +0000").unwrap();
    assert_eq!(a.unix_timestamp(), b.unix_timestamp());
    assert_eq!(a.unix_timestamp(), c.unix_timestamp());
    assert_eq!(a, c);
}

#[test]
fn garbage_of_each_length_is_refused_with_its_form() {
    assert_eq!(
        DateTime::parse("not a timestamp 123"),
        Err(TimestampError { expected: TimestampForm::Seconds })
    );
    assert_eq!(
        DateTime::parse("not a timestamp 1234567"),
        Err(TimestampError { expected: TimestampForm::Milliseconds })
    );
    assert_eq!(DateTime::parse(""), Err(TimestampError { expected: TimestampForm::Nanoseconds }));
    assert_eq!(
        DateTime::parse("2020-01-01"),
        Err(TimestampError { expected: TimestampForm::Nanoseconds })
    );
}

#[test]
fn a_text_of_nineteen_bytes_is_not_read_as_legacy() {
    // 19 bytes, but not in the form for whole seconds: no other form is tried.
    assert_eq!("2020-01-01T00:00:00".len(), 19);
    assert!(DateTime::parse("2020-01-01T00:00:00").is_err());
}

#[test]
fn form_goes_by_length() {
    assert_eq!(DateTime::form(19), TimestampForm::Seconds);
    assert_eq!(DateTime::form(23), TimestampForm::Milliseconds);
    assert_eq!(DateTime::form(0), TimestampForm::Nanoseconds);
    assert_eq!(DateTime::form(29), TimestampForm::Nanoseconds);
    assert_eq!(DateTime::form(35), TimestampForm::Nanoseconds);
}

#[test]
fn resolve_prefers_the_first_reading() {
    let first = Some((10i64, 5u32));
    let legacy = Some((20i64, 0u32));
    assert_eq!(
        DateTime::resolve(TimestampForm::Nanoseconds, first, legacy),
        Ok(DateTime { seconds: 10, nanos: 5 })
    );
    assert_eq!(
        DateTime::resolve(TimestampForm::Nanoseconds, None, legacy),
        Ok(DateTime { seconds: 20, nanos: 0 })
    );
    assert_eq!(
        DateTime::resolve(TimestampForm::Seconds, None, legacy),
        Err(TimestampError { expected: TimestampForm::Seconds })
    );
    assert_eq!(
        DateTime::resolve(TimestampForm::Nanoseconds, None, None),
        Err(TimestampError { expected: TimestampForm::Nanoseconds })
    );
}

#[test]
fn default_times_are_the_epoch() {
    assert_eq!(DateTime::default(), DateTime { seconds: 0, nanos: 0 });
    assert_eq!(DateTime::unix_epoch(), DateTime::default());
    assert_eq!(CreatedTime::default(), CreatedTime(DateTime { seconds: 0, nanos: 0 }));
    assert_eq!(LastModifiedTime::default(), LastModifiedTime(DateTime { seconds: 0, nanos: 0 }));
}

#[test]
fn times_are_ordered_as_instants() {
    let early = DateTime { seconds: 1, nanos: 999_999_999 };
    let late = DateTime { seconds: 2, nanos: 0 };
    assert!(early < late);
    assert!(DateTime { seconds: -1, nanos: 0 } < DateTime { seconds: 0, nanos: 0 });
}

#[test]
fn a_signed_year_is_read_in_the_legacy_form() {
    assert_eq!(
        DateTime::parse("+002020-01-01 00:00:00:000000000 +0000"),
        Ok(DateTime { seconds: 1_577_836_800, nanos: 0 })
    );
    assert_eq!(
        DateTime::parse("+2020-01-01 02:00:00:000000007 +0200"),
        Ok(DateTime { seconds: 1_577_836_800, nanos: 7 })
    );
    assert_eq!(
        DateTime::parse("-0001-12-31 23:59:59:000000000 +0000").map(|t| t.nanos),
        Ok(0)
    );
    // The nanosecond form takes a sign as well.
    assert_eq!(
        DateTime::parse("+002020-01-01 00:00:00.000000000"),
        Ok(DateTime { seconds: 1_577_836_800, nanos: 0 })
    );
    // The year next to the edge is read.
    assert!(DateTime::parse("+99999-12-31 23:59:59:000000000 -2359").is_ok());
    assert!(DateTime::parse("-99999-01-01 00:00:00:000000000 +2359").is_ok());
    // A year beyond the edge is none.
    assert!(DateTime::parse("+100001-01-01 00:00:00:000000000 +0000").is_err());
}

#[test]
fn the_year_at_the_edge_is_not_read_in_the_legacy_form() {
    for text in [
        "+100000-12-31 23:59:59:000000000 -2359",
        "-100000-01-01 00:00:00:000000000 +2359",
        "+0100000-12-31 23:59:59:000000000 -2359",
        "+00100000-12-31 23:59:59:000000000 -2359",
        "+000100000-12-31 23:59:59:000000000 -2359",
        "+100000-06-15 12:00:00:000000000 +0000",
    ] {
        assert!(DateTime::begins_at_the_edge(text));
        assert_eq!(
            DateTime::parse(text),
            Err(TimestampError { expected: TimestampForm::Nanoseconds })
        );
    }
    for text in [
        "",
        "+",
        "+10000",
        "+100001",
        "+200000-",
        "100000-12-31",
        "+0000100000-12-31",
        "+010000-01-01",
        "-099999",
        " +100000",
    ] {
        assert!(!DateTime::begins_at_the_edge(text));
    }
    assert!(DateTime::begins_with_sign("+2020"));
    assert!(DateTime::begins_with_sign("-"));
    assert!(!DateTime::begins_with_sign("2020-01-01"));
    assert!(!DateTime::begins_with_sign(""));
    assert!(!DateTime::begins_with_sign(" +"));
}

#[test]
fn times_before_the_epoch_have_negative_seconds() {
    assert_eq!(
        DateTime::parse("1969-12-31 23:59:59"),
        Ok(DateTime { seconds: -1, nanos: 0 })
    );
    assert_eq!(
        DateTime::parse("1969-12-31 23:59:59.500"),
        Ok(DateTime { seconds: -1, nanos: 500_000_000 })
    );
}

#[test]
fn times_are_written_with_nine_fractional_digits() {
    assert_eq!(
        DateTime { seconds: 1_577_836_800, nanos: 123_000_000 }.to_sql().as_deref(),
        Some("2020-01-01 00:00:00.123000000")
    );
    assert_eq!(DateTime::default().to_sql().as_deref(), Some("1970-01-01 00:00:00.000000000"));
    assert_eq!(
        DateTime { seconds: -1, nanos: 999_999_999 }.to_sql().as_deref(),
        Some("1969-12-31 23:59:59.999999999")
    );
}

#[test]
fn what_is_written_reads_back() {
    for time in [
        DateTime { seconds: 0, nanos: 0 },
        DateTime { seconds: 1_577_836_800, nanos: 1 },
        DateTime { seconds: -86_400, nanos: 500 },
        DateTime { seconds: 253_402_300_799, nanos: 999_999_999 },
    ] {
        assert_eq!(DateTime::parse(&time.to_sql().unwrap()), Ok(time));
    }
}

#[test]
fn times_beyond_the_calendar_are_not_written() {
    assert_eq!(DateTime { seconds: i64::MAX, nanos: 0 }.to_sql(), None);
    assert_eq!(DateTime { seconds: i64::MIN, nanos: 0 }.to_sql(), None);
    assert_eq!(DateTime { seconds: 3_000_000_000_001, nanos: 0 }.to_sql(), None);
    assert_eq!(DateTime { seconds: -3_000_000_000_001, nanos: 0 }.to_sql(), None);
    assert_eq!(DateTime { seconds: 0, nanos: 1_000_000_000 }.to_sql(), None);
    assert!(DateTime { seconds: 3_000_000_000_000, nanos: 0 }.to_sql().is_some());
    assert!(DateTime { seconds: -3_000_000_000_000, nanos: 999_999_999 }.to_sql().is_some());
}

#[test]
fn offsets_from_the_epoch_become_times() {
    assert_eq!(DateTime::from_epoch_offset(false, 0, 0), DateTime::unix_epoch());
    assert_eq!(DateTime::from_epoch_offset(true, 0, 0), DateTime::unix_epoch());
    assert_eq!(DateTime::from_epoch_offset(false, 5, 7), DateTime { seconds: 5, nanos: 7 });
    assert_eq!(DateTime::from_epoch_offset(true, 5, 0), DateTime { seconds: -5, nanos: 0 });
    // Half a second before the epoch is in the second that ends with it.
    assert_eq!(
        DateTime::from_epoch_offset(true, 0, 500_000_000),
        DateTime { seconds: -1, nanos: 500_000_000 }
    );
    assert_eq!(
        DateTime::from_epoch_offset(true, 5, 1),
        DateTime { seconds: -6, nanos: 999_999_999 }
    );
    assert_eq!(
        DateTime::from_epoch_offset(false, u64::MAX, 3),
        DateTime { seconds: i64::MAX, nanos: 999_999_999 }
    );
    assert_eq!(
        DateTime::from_epoch_offset(false, i64::MAX as u64, 3),
        DateTime { seconds: i64::MAX, nanos: 3 }
    );
    assert_eq!(
        DateTime::from_epoch_offset(true, u64::MAX, 3),
        DateTime { seconds: i64::MIN, nanos: 0 }
    );
    assert_eq!(
        DateTime::from_epoch_offset(true, i64::MAX as u64 - 1, 1),
        DateTime { seconds: i64::MIN + 1, nanos: 999_999_999 }
    );
    assert_eq!(
        DateTime::from_epoch_offset(false, 1, u32::MAX),
        DateTime { seconds: 1, nanos: 999_999_999 }
    );
    assert_eq!(DateTime::from_epoch_offset(true, 1, u32::MAX), DateTime { seconds: -2, nanos: 1 });
}
