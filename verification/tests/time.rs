use dke_sim::time_math::j2000_seconds_of_timestamp;
use dke_sim::time_math::parse_timestamp;
use dke_sim::time_math::CivilDateTime;
use dke_sim::time_math::DATETIME_FORMAT;
use dke_sim::time_math::EPOCH_J2000_DATETIME_STR;
use dke_sim::time_math::UNIX_SECONDS_AT_J2000_EPOCH;

#[test]
fn epoch_string_is_the_epoch() {
    assert_eq!(j2000_seconds_of_timestamp(EPOCH_J2000_DATETIME_STR), Some(0));
    let parts = parse_timestamp(EPOCH_J2000_DATETIME_STR).unwrap();
    assert_eq!(parts.unix_timestamp(), UNIX_SECONDS_AT_J2000_EPOCH);
}

#[test]
fn datetime_format_names_the_layout() {
    assert_eq!(DATETIME_FORMAT, " %Y-%m-%d %H:%M:%S %z");
}

#[test]
fn parse_with_leading_space() {
    let parts = parse_timestamp(" 2023-12-19 16:39:57 +00:00").unwrap();
    assert_eq!(parts.unix_timestamp(), 1703003997);
    assert_eq!(
        j2000_seconds_of_timestamp(" 2023-12-19 16:39:57 +00:00"),
        Some(756275997)
    );
}

#[test]
fn parse_zone_offsets() {
    // a western zone shifts the instant later in UTC
    assert_eq!(
        j2000_seconds_of_timestamp("2000-01-01 12:00:00 -01:30"),
        Some(5400)
    );
    // an offset without a colon is accepted
    assert_eq!(
        j2000_seconds_of_timestamp("2000-01-01 12:00:00 +0000"),
        Some(0)
    );
    let parts = parse_timestamp("2010-06-15 05:30:00 +05:30").unwrap();
    assert_eq!(parts.offset_minutes, 330);
    assert_eq!(parts.unix_timestamp(), 1276560000);
}

#[test]
fn parse_rejects_malformed_strings() {
    assert!(parse_timestamp("").is_none());
    assert!(parse_timestamp("2000-01-01 12:00:00").is_none());
    assert!(parse_timestamp("2000-01-01T12:00:00 +00:00").is_none());
    assert!(parse_timestamp("2000-1-01 12:00:00 +00:00").is_none());
    assert!(parse_timestamp("  2000-01-01 12:00:00 +00:00").is_none());
    assert!(parse_timestamp("2000-01-01 12:00:00 +00:0x").is_none());
}

#[test]
fn parse_rejects_invalid_fields() {
    assert!(parse_timestamp("2000-13-01 12:00:00 +00:00").is_none());
    assert!(parse_timestamp("2000-00-01 12:00:00 +00:00").is_none());
    assert!(parse_timestamp("2000-04-31 12:00:00 +00:00").is_none());
    assert!(parse_timestamp("2000-01-01 24:00:00 +00:00").is_none());
    assert!(parse_timestamp("2000-01-01 12:60:00 +00:00").is_none());
    assert!(parse_timestamp("2000-01-01 12:00:61 +00:00").is_none());
    assert!(parse_timestamp("2000-01-01 12:00:00 +24:00").is_none());
    assert!(parse_timestamp("2000-01-01 12:00:00 +00:60").is_none());
}

#[test]
fn leap_year_rules() {
    // 2000 is a leap year (divisible by 400), 1900 is not
    assert_eq!(
        parse_timestamp("2000-02-29 00:00:00 +00:00")
            .unwrap()
            .unix_timestamp(),
        951782400
    );
    assert!(parse_timestamp("1900-02-29 00:00:00 +00:00").is_none());
    assert!(parse_timestamp("2001-02-29 00:00:00 +00:00").is_none());
}

#[test]
fn timestamps_before_1970() {
    assert_eq!(
        parse_timestamp("1969-12-31 23:59:59 +00:00")
            .unwrap()
            .unix_timestamp(),
        -1
    );
}

#[test]
fn unix_timestamp_of_civil_fields() {
    let epoch = CivilDateTime {
        year: 1970,
        month: 1,
        day: 1,
        hour: 0,
        minute: 0,
        second: 0,
        offset_minutes: 0,
    };
    assert_eq!(epoch.unix_timestamp(), 0);
    let next_day = CivilDateTime { day: 2, ..epoch };
    assert_eq!(next_day.unix_timestamp(), 86400);
    assert_eq!(next_day.seconds_since_j2000(), 86400 - 946728000);
}
