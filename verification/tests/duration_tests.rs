use stale_sweep::duration::parse_duration;
use stale_sweep::Error;

fn expect_invalid(input: &str) {
    match parse_duration(input) {
        Err(Error::InvalidArgument { name }) => assert_eq!(name, "duration"),
        other => panic!("expected InvalidArgument for {:?}, got {:?}", input, other),
    }
}

#[test]
fn days_times_seconds_per_day() {
    assert_eq!(parse_duration("30d").unwrap(), 30 * 86400);
    assert_eq!(parse_duration("1d").unwrap(), 86400);
    assert_eq!(parse_duration("0d").unwrap(), 0);
    assert_eq!(parse_duration("365d").unwrap(), 365 * 86400);
}

#[test]
fn weeks_times_seconds_per_week() {
    assert_eq!(parse_duration("2w").unwrap(), 2 * 604800);
    assert_eq!(parse_duration("1w").unwrap(), 604800);
    assert_eq!(parse_duration("0w").unwrap(), 0);
    assert_eq!(parse_duration("52w").unwrap(), 52 * 604800);
}

#[test]
fn leading_zeros_and_plus_sign_parse() {
    assert_eq!(parse_duration("007d").unwrap(), 7 * 86400);
    assert_eq!(parse_duration("+3d").unwrap(), 3 * 86400);
}

#[test]
fn missing_or_unknown_unit_is_invalid() {
    expect_invalid("30");
    expect_invalid("30x");
    expect_invalid("30D");
    expect_invalid("30W");
    expect_invalid("abc");
    expect_invalid("");
}

#[test]
fn bad_magnitude_is_invalid() {
    expect_invalid("d");
    expect_invalid("w");
    expect_invalid("-3d");
    expect_invalid("3.5d");
    expect_invalid("+d");
    expect_invalid("3 d");
    expect_invalid("3dd");
}

#[test]
fn overflow_is_invalid() {
    // one more than the largest magnitude whose span in seconds still fits
    assert_eq!(parse_duration("213503982334601d").unwrap(), 18446744073709526400);
    expect_invalid("213503982334602d");
    // the magnitude itself overflows
    expect_invalid("18446744073709551616d");
    expect_invalid("99999999999999999999999w");
}
