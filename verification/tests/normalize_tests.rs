use xrp_viewer::calendar::{epoch_to_display, format_timestamp, TIMESTAMP_LIMIT};
use xrp_viewer::numeral::{format_subunits, parse_subunits, subunits_to_display};

#[test]
fn subunit_parsing_basic() {
    assert_eq!(parse_subunits("1000000"), 1_000_000);
    assert_eq!(parse_subunits("0"), 0);
    assert_eq!(parse_subunits("not-a-number"), 0);
    assert_eq!(parse_subunits(""), 0);
    assert_eq!(parse_subunits("0000001"), 1);
    assert_eq!(parse_subunits("18446744073709551615"), u64::MAX);
    // one past u64::MAX degrades to zero, like any other unusable numeral
    assert_eq!(parse_subunits("18446744073709551616"), 0);
    assert_eq!(parse_subunits("12x34"), 0);
    assert_eq!(parse_subunits("-5"), 0);
    assert_eq!(parse_subunits("1.5"), 0);
}

#[test]
fn subunit_display_values() {
    // 1,000,000 subunits are one display unit
    assert_eq!(parse_subunits("1000000") as f64 / 1_000_000.0, 1.0);
    assert_eq!(parse_subunits("0") as f64 / 1_000_000.0, 0.0);
    assert_eq!(parse_subunits("not-a-number") as f64 / 1_000_000.0, 0.0);
    assert_eq!(subunits_to_display("1000000"), "1.000000");
    assert_eq!(subunits_to_display("0"), "0.000000");
    assert_eq!(subunits_to_display("not-a-number"), "0.000000");
}

#[test]
fn subunit_display_formatting() {
    assert_eq!(format_subunits(1_234_567), "1.234567");
    assert_eq!(format_subunits(42), "0.000042");
    assert_eq!(format_subunits(999_999), "0.999999");
    assert_eq!(format_subunits(20_000_000), "20.000000");
    assert_eq!(format_subunits(u64::MAX), "18446744073709.551615");
}

#[test]
fn epoch_sentinels() {
    assert_eq!(epoch_to_display(None), "Нет данных");
    assert_eq!(epoch_to_display(Some(u64::MAX)), "Некорректная дата");
}

#[test]
fn epoch_zero_is_ledger_epoch() {
    assert_eq!(epoch_to_display(Some(0)), "2000-01-01 00:00 UTC");
}

#[test]
fn epoch_respects_leap_years() {
    // 59 days and 12:34 into the year 2000: the 29th of February exists
    let t = 59 * 86400 + 12 * 3600 + 34 * 60;
    assert_eq!(epoch_to_display(Some(t)), "2000-02-29 12:34 UTC");
    // 2100 is not a leap year: its 59th day is already the 1st of March
    assert_eq!(format_timestamp(4107456000), "2100-02-28 00:00 UTC");
    assert_eq!(format_timestamp(4107542400), "2100-03-01 00:00 UTC");
}

#[test]
fn timestamps_far_in_the_future_are_invalid() {
    assert_eq!(format_timestamp(TIMESTAMP_LIMIT), "Некорректная дата");
    assert_eq!(format_timestamp(TIMESTAMP_LIMIT - 60), "9999-12-31 23:59 UTC");
}

#[test]
fn unix_timestamps_render_correctly() {
    assert_eq!(format_timestamp(0), "1970-01-01 00:00 UTC");
    // a known instant: 2024-02-29 12:00 UTC
    assert_eq!(format_timestamp(1709208000), "2024-02-29 12:00 UTC");
    // the second before and after midnight fall on the right days
    assert_eq!(format_timestamp(86399), "1970-01-01 23:59 UTC");
    assert_eq!(format_timestamp(86400), "1970-01-02 00:00 UTC");
}
