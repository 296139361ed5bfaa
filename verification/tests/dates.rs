use adaq_data_stock_us::dates::{parse_datetime, ymd_date_secs};

#[test]
fn date_parser_handles_iso() {
    assert!(parse_datetime("2025-10-30T00:00:00.000Z").is_some());
    assert!(parse_datetime("not-a-date").is_none());
}

#[test]
fn rfc3339_instants_are_utc() {
    assert_eq!(parse_datetime("2025-10-30T00:00:00.000Z"), Some((1_761_782_400, 0)));
    assert_eq!(parse_datetime("2025-10-30T02:00:00+02:00"), Some((1_761_782_400, 0)));
    assert_eq!(parse_datetime("1970-01-01T00:00:01.5Z"), Some((1, 500_000_000)));
}

#[test]
fn timestamps_without_offset_are_taken_as_utc() {
    assert_eq!(parse_datetime("2025-10-30T00:00:00.250"), Some((1_761_782_400, 250_000_000)));
    assert_eq!(parse_datetime("2025-10-30T00:00:00"), Some((1_761_782_400, 0)));
    assert_eq!(parse_datetime("2025-10-30"), None);
}

#[test]
fn calendar_dates_at_midnight() {
    assert_eq!(ymd_date_secs("2023-01-15"), Some(1_673_740_800));
    assert_eq!(ymd_date_secs("1970-01-01"), Some(0));
    assert_eq!(ymd_date_secs("Jan 15, 2023"), None);
    assert_eq!(ymd_date_secs("2023-02-30"), None);
}
