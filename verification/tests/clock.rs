use model_catalog::clock::{
    current_time, expired_since, is_cache_expired, is_cache_expired_at, parse_timestamp,
    Timestamp, CACHE_DURATION_HOURS,
};

const SIX_HOURS: i64 = 6 * 3600;

fn at(secs: i64, nanos: u32) -> Timestamp {
    Timestamp { secs, nanos }
}

#[test]
fn the_cache_lasts_six_hours() {
    assert_eq!(CACHE_DURATION_HOURS, 6);
}

#[test]
fn a_record_is_fresh_until_the_sixth_hour() {
    let fetched = at(1_700_000_000, 0);
    assert!(!expired_since(Some(fetched), fetched));
    assert!(!expired_since(Some(fetched), at(1_700_000_000 + SIX_HOURS - 1, 0)));
    assert!(!expired_since(
        Some(fetched),
        at(1_700_000_000 + SIX_HOURS - 1, 999_999_999)
    ));
}

#[test]
fn a_record_is_stale_from_the_sixth_hour_on() {
    let fetched = at(1_700_000_000, 0);
    assert!(expired_since(Some(fetched), at(1_700_000_000 + SIX_HOURS, 0)));
    assert!(expired_since(Some(fetched), at(1_700_000_000 + SIX_HOURS, 1)));
    assert!(expired_since(Some(fetched), at(1_700_000_000 + 10 * SIX_HOURS, 0)));
}

#[test]
fn nanoseconds_count_at_the_boundary() {
    let fetched = at(1_700_000_000, 500_000_000);
    assert!(!expired_since(
        Some(fetched),
        at(1_700_000_000 + SIX_HOURS, 499_999_999)
    ));
    assert!(expired_since(
        Some(fetched),
        at(1_700_000_000 + SIX_HOURS, 500_000_000)
    ));
}

#[test]
fn a_record_from_the_future_is_fresh() {
    let fetched = at(1_700_000_000, 0);
    assert!(!expired_since(Some(fetched), at(1_600_000_000, 0)));
}

#[test]
fn the_widest_span_of_time_does_not_overflow() {
    assert!(expired_since(Some(at(i64::MIN, 0)), at(i64::MAX, u32::MAX)));
    assert!(!expired_since(Some(at(i64::MAX, u32::MAX)), at(i64::MIN, 0)));
}

#[test]
fn a_record_without_a_readable_date_is_stale() {
    assert!(expired_since(None, at(0, 0)));
    assert!(is_cache_expired_at("", at(0, 0)));
    assert!(is_cache_expired_at("yesterday", at(0, 0)));
    assert!(is_cache_expired_at("2024-01-01 00:00:00", at(1_704_067_200, 0)));
    assert!(is_cache_expired("not a date"));
}

#[test]
fn parse_timestamp_reads_rfc_3339() {
    assert_eq!(parse_timestamp("1970-01-01T00:00:00Z"), Some(at(0, 0)));
    assert_eq!(
        parse_timestamp("2024-01-01T00:00:00+00:00"),
        Some(at(1_704_067_200, 0))
    );
    assert_eq!(
        parse_timestamp("2024-01-01T02:00:00.25+02:00"),
        Some(at(1_704_067_200, 250_000_000))
    );
    assert_eq!(
        parse_timestamp("2024-01-01T00:00:00.123456789Z"),
        Some(at(1_704_067_200, 123_456_789))
    );
    assert_eq!(parse_timestamp("2024-13-01T00:00:00Z"), None);
    assert_eq!(parse_timestamp("2024-01-01"), None);
}

#[test]
fn staleness_is_read_from_the_text_of_the_date() {
    let now = at(1_704_067_200 + SIX_HOURS, 0);
    assert!(is_cache_expired_at("2024-01-01T00:00:00Z", now));
    assert!(!is_cache_expired_at("2024-01-01T00:00:01Z", now));
    assert!(!is_cache_expired_at("2024-01-01T01:00:00+00:00", now));
    assert!(is_cache_expired_at("2024-01-01T01:00:00+01:00", now));
}

#[test]
fn the_system_clock_is_past_the_year_2020() {
    let now = current_time();
    assert!(now.secs > 1_577_836_800);
    assert!(now.nanos < 2_000_000_000);
    assert!(is_cache_expired("2000-01-01T00:00:00Z"));
    assert!(!is_cache_expired("2999-01-01T00:00:00Z"));
}
