use vstd::prelude::*;
use vstd::string::StringExecFns;
use crate::threshold::NANOS_PER_SECOND;
use chrono::Datelike;
use chrono::Timelike;

verus! {

/// The cutoff instant broken into the fields of a local calendar date and
/// time of day.
pub struct CalendarParts {
    pub year: u16,
    pub month: u8,
    pub day: u8,
    pub hour: u8,
    pub minute: u8,
    pub second: u8,
}

/// The fields lie in calendar ranges, with a four-digit year.
pub open spec fn calendar_wf(p: CalendarParts) -> bool {
    &&& 1000 <= p.year <= 9999
    &&& 1 <= p.month <= 12
    &&& 1 <= p.day <= 31
    &&& p.hour <= 23
    &&& p.minute <= 59
    &&& p.second <= 59
}

/// The character of one decimal digit.
pub open spec fn digit_char_of(d: nat) -> char {
    if d == 0 {
        '0'
    } else if d == 1 {
        '1'
    } else if d == 2 {
        '2'
    } else if d == 3 {
        '3'
    } else if d == 4 {
        '4'
    } else if d == 5 {
        '5'
    } else if d == 6 {
        '6'
    } else if d == 7 {
        '7'
    } else if d == 8 {
        '8'
    } else {
        '9'
    }
}

/// A number rendered as exactly two decimal digits, zero-padded.
pub open spec fn two_digit_chars(n: nat) -> Seq<char> {
    seq![digit_char_of(n / 10), digit_char_of(n % 10)]
}

/// A number rendered as exactly four decimal digits, zero-padded.
pub open spec fn four_digit_chars(n: nat) -> Seq<char> {
    seq![
        digit_char_of(n / 1000),
        digit_char_of((n / 100) % 10),
        digit_char_of((n / 10) % 10),
        digit_char_of(n % 10),
    ]
}

/// Days from the epoch to a proleptic Gregorian civil date; negative for
/// dates before it.
pub open spec fn days_from_civil(y: int, m: int, d: int) -> int {
    let yy = if m <= 2 {
        y - 1
    } else {
        y
    };
    let era = yy / 400;
    let yoe = yy - era * 400;
    let mp = if m > 2 {
        m - 3
    } else {
        m + 9
    };
    let doy = (153 * mp + 2) / 5 + d - 1;
    let doe = yoe * 365 + yoe / 4 - yoe / 100 + doy;
    era * 146097 + doe - 719468
}

/// The seconds from the epoch that calendar fields denote, read as a
/// proleptic Gregorian date with a time of day.
pub open spec fn epoch_secs_of(p: CalendarParts) -> int {
    days_from_civil(p.year as int, p.month as int, p.day as int) * 86400 + (p.hour as int) * 3600
        + (p.minute as int) * 60 + (p.second as int)
}

/// The pattern `DD/MM/YYYY HH:MM:SS` over the calendar fields.
pub open spec fn timestamp_chars(p: CalendarParts) -> Seq<char> {
    two_digit_chars(p.day as nat) + seq!['/'] + two_digit_chars(p.month as nat) + seq!['/']
        + four_digit_chars(p.year as nat) + seq![' '] + two_digit_chars(p.hour as nat) + seq![':']
        + two_digit_chars(p.minute as nat) + seq![':'] + two_digit_chars(p.second as nat)
}

/// Appends one decimal digit character.
fn push_digit(out: &mut String, d: u8)
    requires
        d <= 9,
    ensures
        final(out)@ == old(out)@ + seq![digit_char_of(d as nat)],
{
    proof {
        reveal_strlit("0");
        reveal_strlit("1");
        reveal_strlit("2");
        reveal_strlit("3");
        reveal_strlit("4");
        reveal_strlit("5");
        reveal_strlit("6");
        reveal_strlit("7");
        reveal_strlit("8");
        reveal_strlit("9");
    }
    if d == 0 {
        out.append("0");
    } else if d == 1 {
        out.append("1");
    } else if d == 2 {
        out.append("2");
    } else if d == 3 {
        out.append("3");
    } else if d == 4 {
        out.append("4");
    } else if d == 5 {
        out.append("5");
    } else if d == 6 {
        out.append("6");
    } else if d == 7 {
        out.append("7");
    } else if d == 8 {
        out.append("8");
    } else {
        out.append("9");
    }
}

/// Appends a number as exactly two decimal digits, zero-padded.
fn push_two_digits(out: &mut String, n: u8)
    requires
        n <= 99,
    ensures
        final(out)@ == old(out)@ + two_digit_chars(n as nat),
{
    push_digit(out, n / 10);
    push_digit(out, n % 10);
    proof {
        assert(old(out)@ + seq![digit_char_of((n / 10) as nat)] + seq![
            digit_char_of((n % 10) as nat),
        ] =~= old(out)@ + two_digit_chars(n as nat));
    }
}

/// Appends a number as exactly four decimal digits, zero-padded.
fn push_four_digits(out: &mut String, n: u16)
    requires
        n <= 9999,
    ensures
        final(out)@ == old(out)@ + four_digit_chars(n as nat),
{
    push_digit(out, (n / 1000) as u8);
    push_digit(out, ((n / 100) % 10) as u8);
    push_digit(out, ((n / 10) % 10) as u8);
    push_digit(out, (n % 10) as u8);
    proof {
        assert(old(out)@ + seq![digit_char_of((n / 1000) as nat)] + seq![
            digit_char_of(((n / 100) % 10) as nat),
        ] + seq![digit_char_of(((n / 10) % 10) as nat)] + seq![digit_char_of((n % 10) as nat)] =~= old(
            out,
        )@ + four_digit_chars(n as nat));
    }
}

/// Renders calendar fields in the pattern `DD/MM/YYYY HH:MM:SS`: day and
/// month as two zero-padded digits, the year as four, and the time of day
/// as three colon-separated two-digit groups.
pub fn format_timestamp(p: &CalendarParts) -> (r: String)
    requires
        calendar_wf(*p),
    ensures
        r@ == timestamp_chars(*p),
{
    proof {
        reveal_strlit("/");
        reveal_strlit(" ");
        reveal_strlit(":");
    }
    let mut out = String::new();
    push_two_digits(&mut out, p.day);
    out.append("/");
    push_two_digits(&mut out, p.month);
    out.append("/");
    push_four_digits(&mut out, p.year);
    out.append(" ");
    push_two_digits(&mut out, p.hour);
    out.append(":");
    push_two_digits(&mut out, p.minute);
    out.append(":");
    push_two_digits(&mut out, p.second);
    proof {
        assert(out@ =~= timestamp_chars(*p));
    }
    out
}

/// The largest count of seconds since the epoch handed to the calendar
/// conversion; it keeps the local date within the year 9999 for every
/// offset the local time zone can take.
pub const MAX_CALENDAR_SECS: u64 = 253402128000;

/// Relies on chrono: `DateTime::from_timestamp` turns a number of seconds
/// since the epoch within range into a UTC instant, `with_timezone(&Local)`
/// re-expresses it in the machine's local time zone, and the `Datelike` and
/// `Timelike` accessors return calendar fields in their documented ranges
/// (month 1..=12, day 1..=31, hour 0..=23, minute and second 0..=59). The
/// local fields depend on the machine's time zone, so their exact values are
/// not claimed; but every offset chrono can apply is a `FixedOffset`, which
/// lies strictly within one day of UTC, so the instant the fields denote
/// lies strictly within one day of the instant given.
#[verifier::external_body]
fn local_calendar_parts(secs: u64) -> (r: CalendarParts)
    requires
        secs <= MAX_CALENDAR_SECS,
    ensures
        calendar_wf(r),
        1969 <= r.year,
        epoch_secs_of(r) - 86400 < secs as int,
        (secs as int) < epoch_secs_of(r) + 86400,
{
    let utc = chrono::DateTime::from_timestamp(secs as i64, 0).expect("timestamp in range");
    let local = utc.with_timezone(&chrono::Local);
    CalendarParts {
        year: local.year() as u16,
        month: local.month() as u8,
        day: local.day() as u8,
        hour: local.hour() as u8,
        minute: local.minute() as u8,
        second: local.second() as u8,
    }
}

/// Renders the cutoff instant, given in nanoseconds since the epoch, as a
/// local `DD/MM/YYYY HH:MM:SS` timestamp for the confirmation prompt. The
/// instant is shown at whole-second precision, in the local calendar: the
/// rendered fields denote an instant strictly within one day of the cutoff,
/// the slack being the local time zone's offset. Returns `None` when the
/// instant lies beyond the range the calendar conversion accepts.
pub fn format_threshold_local(threshold_nanos: u128) -> (r: Option<String>)
    ensures
        r is Some <==> threshold_nanos / (NANOS_PER_SECOND as u128) <= MAX_CALENDAR_SECS,
        r matches Some(s) ==> exists|p: CalendarParts|
            {
                &&& calendar_wf(p)
                &&& 1969 <= p.year
                &&& s@ == timestamp_chars(p)
                &&& epoch_secs_of(p) - 86400 < (threshold_nanos / (NANOS_PER_SECOND as u128)) as int
                &&& ((threshold_nanos / (NANOS_PER_SECOND as u128)) as int) < epoch_secs_of(p)
                    + 86400
            },
{
    let secs128: u128 = threshold_nanos / (NANOS_PER_SECOND as u128);
    if secs128 <= MAX_CALENDAR_SECS as u128 {
        let secs: u64 = secs128 as u64;
        let parts = local_calendar_parts(secs);
        let out = format_timestamp(&parts);
        proof {
            assert(calendar_wf(parts) && 1969 <= parts.year && out@ == timestamp_chars(parts));
            assert(epoch_secs_of(parts) - 86400 < secs as int);
            assert((secs as int) < epoch_secs_of(parts) + 86400);
        }
        Some(out)
    } else {
        None
    }
}

} // verus!
