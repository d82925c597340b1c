use orb_billing::timestamp::Timestamp;

const SECOND: i128 = 1_000_000_000;

#[test]
fn epoch_in_utc() {
    let t = Timestamp { unix_nanos: 0, offset_seconds: 0 };
    assert_eq!(t.to_rfc3339().unwrap(), "1970-01-01T00:00:00Z");
}

#[test]
fn whole_second_in_utc_ends_in_z() {
    let t = Timestamp { unix_nanos: 1_704_067_200 * SECOND, offset_seconds: 0 };
    assert_eq!(t.to_rfc3339().unwrap(), "2024-01-01T00:00:00Z");
}

#[test]
fn offset_moves_the_local_time_and_is_written() {
    let t = Timestamp { unix_nanos: 1_704_067_200 * SECOND, offset_seconds: 3600 };
    assert_eq!(t.to_rfc3339().unwrap(), "2024-01-01T01:00:00+01:00");
    let t = Timestamp { unix_nanos: 1_704_067_200 * SECOND, offset_seconds: -(5 * 3600 + 1800) };
    assert_eq!(t.to_rfc3339().unwrap(), "2023-12-31T18:30:00-05:30");
}

#[test]
fn fraction_of_a_second_is_written_without_trailing_zeros() {
    let t = Timestamp { unix_nanos: 1_704_067_200 * SECOND + 500_000_000, offset_seconds: 0 };
    assert_eq!(t.to_rfc3339().unwrap(), "2024-01-01T00:00:00.5Z");
    let t = Timestamp { unix_nanos: 1_704_067_200 * SECOND + 1, offset_seconds: 0 };
    assert_eq!(t.to_rfc3339().unwrap(), "2024-01-01T00:00:00.000000001Z");
}

#[test]
fn time_before_the_epoch() {
    let t = Timestamp { unix_nanos: -SECOND, offset_seconds: 0 };
    assert_eq!(t.to_rfc3339().unwrap(), "1969-12-31T23:59:59Z");
}

#[test]
fn offset_with_seconds_has_no_text() {
    let t = Timestamp { unix_nanos: 0, offset_seconds: 3601 };
    assert_eq!(t.to_rfc3339(), None);
}

#[test]
fn offset_of_a_day_or_more_has_no_text() {
    let t = Timestamp { unix_nanos: 0, offset_seconds: 24 * 3600 };
    assert_eq!(t.to_rfc3339(), None);
    let t = Timestamp { unix_nanos: 0, offset_seconds: i32::MAX };
    assert_eq!(t.to_rfc3339(), None);
    let t = Timestamp { unix_nanos: 0, offset_seconds: i32::MIN };
    assert_eq!(t.to_rfc3339(), None);
}

#[test]
fn year_before_zero_has_no_text() {
    // 0000-01-01T00:00:00Z is 62_167_219_200 seconds before the epoch.
    let first = Timestamp { unix_nanos: -62_167_219_200 * SECOND, offset_seconds: 0 };
    assert_eq!(first.to_rfc3339().unwrap(), "0000-01-01T00:00:00Z");
    let before = Timestamp { unix_nanos: -62_167_219_200 * SECOND - 1, offset_seconds: 0 };
    assert_eq!(before.to_rfc3339(), None);
}

#[test]
fn year_after_9999_has_no_text() {
    // 9999-12-31T23:59:59Z is 253_402_300_799 seconds after the epoch.
    let last = Timestamp { unix_nanos: 253_402_300_799 * SECOND, offset_seconds: 0 };
    assert_eq!(last.to_rfc3339().unwrap(), "9999-12-31T23:59:59Z");
    let local_after = Timestamp { unix_nanos: 253_402_300_799 * SECOND, offset_seconds: 60 };
    assert_eq!(local_after.to_rfc3339(), None);
    let after = Timestamp { unix_nanos: 253_402_300_800 * SECOND, offset_seconds: 0 };
    assert_eq!(after.to_rfc3339(), None);
}

#[test]
fn instants_out_of_every_range_have_no_text() {
    assert_eq!(Timestamp { unix_nanos: i128::MAX, offset_seconds: 0 }.to_rfc3339(), None);
    assert_eq!(Timestamp { unix_nanos: i128::MIN, offset_seconds: 0 }.to_rfc3339(), None);
}

#[test]
fn text_is_the_one_that_the_time_crate_reads_back() {
    let t = Timestamp { unix_nanos: 1_700_000_000 * SECOND + 123_000_000, offset_seconds: -7200 };
    let text = t.to_rfc3339().unwrap();
    assert_eq!(text, "2023-11-14T20:13:20.123-02:00");
    let made = time::OffsetDateTime::from_unix_timestamp_nanos(t.unix_nanos)
        .unwrap()
        .to_offset(time::UtcOffset::from_whole_seconds(t.offset_seconds).unwrap());
    assert_eq!(made.unix_timestamp_nanos(), t.unix_nanos);
    assert_eq!(made.format(&time::format_description::well_known::Rfc3339).unwrap(), text);
}
