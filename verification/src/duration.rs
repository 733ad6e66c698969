use vstd::prelude::*;
use vstd::string::StrSliceExecFns;
use crate::errors::Error;

verus! {

/// Seconds in one day: 60 * 60 * 24.
pub const SECONDS_PER_DAY: u64 = 86400;

/// Seconds in one week: 60 * 60 * 24 * 7.
pub const SECONDS_PER_WEEK: u64 = 604800;

/// A decimal digit character.
pub open spec fn is_digit_char(c: char) -> bool {
    48 <= c as int && c as int <= 57
}

/// The numeric value of a decimal digit character.
pub open spec fn digit_val(c: char) -> nat {
    (c as int - 48) as nat
}

/// Every character of `s` is a decimal digit.
pub open spec fn all_digits(s: Seq<char>) -> bool {
    forall|i: int| 0 <= i < s.len() ==> is_digit_char(s[i])
}

/// The value of a string of decimal digits, most significant first.
pub open spec fn digits_value(s: Seq<char>) -> nat
    decreases s.len(),
{
    if s.len() == 0 {
        0
    } else {
        digits_value(s.drop_last()) * 10 + digit_val(s.last())
    }
}

/// The magnitude portion of a duration string is well-formed: one or more
/// digits, optionally preceded by a plus sign, as an unsigned decimal
/// integer parses.
pub open spec fn magnitude_wf(s: Seq<char>) -> bool {
    if s.len() == 0 {
        false
    } else if s[0] == '+' {
        s.len() > 1 && all_digits(s.skip(1))
    } else {
        all_digits(s)
    }
}

/// The numeric value of a well-formed magnitude portion.
pub open spec fn magnitude_value(s: Seq<char>) -> nat {
    if s.len() > 0 && s[0] == '+' {
        digits_value(s.skip(1))
    } else {
        digits_value(s)
    }
}

/// Seconds per unit: `d` is a day, `w` is a week, anything else is no unit.
pub open spec fn unit_factor(c: char) -> nat {
    if c == 'd' {
        SECONDS_PER_DAY as nat
    } else if c == 'w' {
        SECONDS_PER_WEEK as nat
    } else {
        0
    }
}

/// A duration string is well-formed: a well-formed magnitude followed by a
/// single trailing unit character, `d` or `w`.
pub open spec fn duration_wf(s: Seq<char>) -> bool {
    &&& s.len() >= 1
    &&& (s.last() == 'd' || s.last() == 'w')
    &&& magnitude_wf(s.drop_last())
}

/// The span in seconds that a well-formed duration string denotes.
pub open spec fn duration_secs_value(s: Seq<char>) -> nat {
    magnitude_value(s.drop_last()) * unit_factor(s.last())
}

/// A duration string parses: it is well-formed and its span in seconds is
/// representable.
pub open spec fn duration_parses(s: Seq<char>) -> bool {
    duration_wf(s) && duration_secs_value(s) <= u64::MAX
}

/// A prefix of a digit string never denotes more than the whole string.
proof fn lemma_digits_prefix_le(s: Seq<char>, k: int)
    requires
        0 <= k <= s.len(),
    ensures
        digits_value(s.take(k)) <= digits_value(s),
    decreases s.len() - k,
{
    if k < s.len() {
        assert(s.take(k + 1).drop_last() =~= s.take(k));
        assert(digits_value(s.take(k + 1)) == digits_value(s.take(k)) * 10 + digit_val(
            s.take(k + 1).last(),
        ));
        lemma_digits_prefix_le(s, k + 1);
    } else {
        assert(s.take(k) =~= s);
    }
}

/// The error every malformed duration string is reported with.
fn invalid_duration() -> (r: Error)
    ensures
        r matches Error::InvalidArgument { name } && name@ == "duration"@,
{
    Error::InvalidArgument { name: "duration".to_owned() }
}

/// Parses an age threshold of the form `<n>d` (days) or `<n>w` (weeks) into
/// a span of seconds: `n * 86400` for days, `n * 604800` for weeks. Fails
/// with `InvalidArgument` when the trailing unit is absent or unrecognized,
/// when the magnitude is not a non-negative decimal integer, or when the
/// magnitude or the resulting span overflows.
pub fn parse_duration(s: &str) -> (r: Result<u64, Error>)
    ensures
        r is Ok <==> duration_parses(s@),
        r matches Ok(secs) ==> secs == duration_secs_value(s@),
        r matches Err(e) ==> e matches Error::InvalidArgument { name } && name@ == "duration"@,
{
    let n = s.unicode_len();
    if n == 0 {
        return Err(invalid_duration());
    }
    let unit = s.get_char(n - 1);
    let unit_code = unit as u32;
    let factor: u64 = if unit_code == 100 {
        // 'd'
        SECONDS_PER_DAY
    } else if unit_code == 119 {
        // 'w'
        SECONDS_PER_WEEK
    } else {
        return Err(invalid_duration());
    };
    assert(unit == 'd' || unit == 'w');
    let ghost mag: Seq<char> = s@.drop_last();

    let mut i: usize = 0;
    if s.get_char(0) as u32 == 43 {
        // a leading '+' sign
        i = 1;
    }
    if i >= n - 1 {
        // no digits at all
        assert(!magnitude_wf(mag)) by {
            if i == 1 {
                assert(mag.len() <= 1);
            } else {
                assert(mag.len() == 0);
            }
        }
        return Err(invalid_duration());
    }
    let ghost start = i as int;
    let mut acc: u64 = 0;
    while i < n - 1
        invariant
            start <= i <= n - 1,
            n >= 2,
            n == s@.len(),
            start == 0 || start == 1,
            start == 1 ==> s@[0] == '+',
            start == 0 ==> s@[0] != '+',
            start == 1 ==> mag.len() > 1,
            mag == s@.drop_last(),
            all_digits(mag.subrange(start, i as int)),
            acc == digits_value(mag.subrange(start, i as int)),
        decreases n - 1 - i,
    {
        let c = s.get_char(i);
        let code = c as u32;
        if code < 48 || code > 57 {
            assert(!is_digit_char(mag[i as int]));
            assert(!magnitude_wf(mag)) by {
                if start == 1 {
                    assert(mag.skip(1)[i - 1] == mag[i as int]);
                } else {
                }
            }
            return Err(invalid_duration());
        }
        let d: u64 = (code - 48) as u64;
        assert(d == digit_val(c));
        let ghost pre = mag.subrange(start, i as int);
        let ghost ext = mag.subrange(start, i as int + 1);
        proof {
            assert(ext.drop_last() =~= pre);
            assert(ext.last() == mag[i as int]);
            assert(digits_value(ext) == digits_value(pre) * 10 + digit_val(mag[i as int]));
            assert forall|j: int| 0 <= j < ext.len() implies is_digit_char(ext[j]) by {
                if j < ext.len() - 1 {
                    assert(ext[j] == pre[j]);
                } else {
                    assert(ext[j] == mag[i as int]);
                }
            }
        }
        let shifted = match acc.checked_mul(10) {
            Some(v) => v,
            None => {
                proof {
                    overflow_means_no_parse(s@, mag, start, i as int);
                }
                return Err(invalid_duration());
            },
        };
        let next = match shifted.checked_add(d) {
            Some(v) => v,
            None => {
                proof {
                    overflow_means_no_parse(s@, mag, start, i as int);
                }
                return Err(invalid_duration());
            },
        };
        acc = next;
        i = i + 1;
    }
    assert(mag.subrange(start, i as int) =~= mag.skip(start));
    assert(magnitude_wf(mag)) by {
        if start == 0 {
            assert(mag.skip(0) =~= mag);
        }
    }
    assert(acc == magnitude_value(mag)) by {
        if start == 0 {
            assert(mag.skip(0) =~= mag);
        }
    }
    match acc.checked_mul(factor) {
        Some(secs) => {
            assert(duration_parses(s@));
            Ok(secs)
        },
        None => {
            assert(!duration_parses(s@));
            Err(invalid_duration())
        },
    }
}

/// When accumulating the digits seen so far already overflows a `u64`, the
/// whole magnitude is at least as large, so the duration cannot parse.
proof fn overflow_means_no_parse(s: Seq<char>, mag: Seq<char>, start: int, i: int)
    requires
        s.len() >= 2,
        mag == s.drop_last(),
        0 <= start <= i < mag.len(),
        start == 0 || start == 1,
        start == 1 ==> mag[0] == '+',
        start == 0 ==> mag[0] != '+',
        digits_value(mag.subrange(start, i)) * 10 + digit_val(mag[i]) > u64::MAX,
    ensures
        !duration_parses(s),
{
    if duration_wf(s) {
        let whole = mag.skip(start);
        assert(mag.subrange(start, i + 1).drop_last() =~= mag.subrange(start, i));
        assert(digits_value(mag.subrange(start, i + 1)) == digits_value(mag.subrange(start, i)) * 10
            + digit_val(mag[i]));
        assert(whole.take(i + 1 - start) =~= mag.subrange(start, i + 1));
        lemma_digits_prefix_le(whole, i + 1 - start);
        assert(digits_value(whole) > u64::MAX);
        let m = magnitude_value(mag);
        assert(m == digits_value(whole)) by {
            if start == 0 {
                assert(mag.skip(0) =~= mag);
            }
        }
        let f = unit_factor(s.last());
        assert(f >= 1);
        assert(m * f >= m * 1) by (nonlinear_arith)
            requires
                f >= 1,
        ;
        assert(duration_secs_value(s) > u64::MAX);
    }
}

} // verus!
