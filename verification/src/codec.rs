//! The place values of metric time: seconds to and from the seven calendar
//! fields.
//!
//! A year is ten months, a month ten weeks, a week ten days, a day ten hours,
//! an hour a hundred minutes and a minute a hundred seconds.

use vstd::arithmetic::div_mod::{lemma_fundamental_div_mod_converse, lemma_mod_breakdown};
use vstd::prelude::*;

verus! {

/// Seconds in a year.
pub const SECONDS_PER_YEAR: u64 = 100_000_000;

/// Seconds in a month.
pub const SECONDS_PER_MONTH: u64 = 10_000_000;

/// Seconds in a week.
pub const SECONDS_PER_WEEK: u64 = 1_000_000;

/// Seconds in a day.
pub const SECONDS_PER_DAY: u64 = 100_000;

/// Seconds in an hour.
pub const SECONDS_PER_HOUR: u64 = 10_000;

/// Seconds in a minute.
pub const SECONDS_PER_MINUTE: u64 = 100;

/// The seconds that the seven fields add up to. Nothing is carried and
/// nothing is reduced: a field above its range simply weighs more.
pub open spec fn encode_spec(
    year: nat,
    month: nat,
    week: nat,
    day: nat,
    hour: nat,
    minute: nat,
    second: nat,
) -> nat {
    year * (SECONDS_PER_YEAR as nat) + month * (SECONDS_PER_MONTH as nat) + week * (
    SECONDS_PER_WEEK as nat) + day * (SECONDS_PER_DAY as nat) + hour * (SECONDS_PER_HOUR as nat)
        + minute * (SECONDS_PER_MINUTE as nat) + second
}

/// The fields of `seconds`, as (year, month, week, day, hour, minute,
/// second): each is the digit that `seconds` has at the field's place.
pub open spec fn decode_spec(seconds: nat) -> (nat, nat, nat, nat, nat, nat, nat) {
    (
        seconds / (SECONDS_PER_YEAR as nat),
        seconds / (SECONDS_PER_MONTH as nat) % 10,
        seconds / (SECONDS_PER_WEEK as nat) % 10,
        seconds / (SECONDS_PER_DAY as nat) % 10,
        seconds / (SECONDS_PER_HOUR as nat) % 10,
        seconds / (SECONDS_PER_MINUTE as nat) % 100,
        seconds % 100,
    )
}

/// Whether each field below the year is within its range: month, week, day
/// and hour under ten, minute and second under a hundred.
pub open spec fn is_canonical(
    month: nat,
    week: nat,
    day: nat,
    hour: nat,
    minute: nat,
    second: nat,
) -> bool {
    month < 10 && week < 10 && day < 10 && hour < 10 && minute < 100 && second < 100
}

/// The seconds that the seven fields add up to, or `None` where the sum does
/// not fit in `u64`.
pub fn checked_encode(
    year: u64,
    month: u64,
    week: u64,
    day: u64,
    hour: u64,
    minute: u64,
    second: u64,
) -> (r: Option<u64>)
    ensures
        r is Some <==> encode_spec(
            year as nat,
            month as nat,
            week as nat,
            day as nat,
            hour as nat,
            minute as nat,
            second as nat,
        ) <= u64::MAX,
        r matches Some(seconds) ==> seconds == encode_spec(
            year as nat,
            month as nat,
            week as nat,
            day as nat,
            hour as nat,
            minute as nat,
            second as nat,
        ),
{
    let mut total: u128 = year as u128 * 100_000_000;
    total = total + month as u128 * 10_000_000;
    total = total + week as u128 * 1_000_000;
    total = total + day as u128 * 100_000;
    total = total + hour as u128 * 10_000;
    total = total + minute as u128 * 100;
    total = total + second as u128;
    if total <= 0xffff_ffff_ffff_ffff {
        Some(total as u64)
    } else {
        None
    }
}

/// The seconds that the seven fields add up to.
pub fn encode(
    year: u64,
    month: u64,
    week: u64,
    day: u64,
    hour: u64,
    minute: u64,
    second: u64,
) -> (seconds: u64)
    requires
        encode_spec(
            year as nat,
            month as nat,
            week as nat,
            day as nat,
            hour as nat,
            minute as nat,
            second as nat,
        ) <= u64::MAX,
    ensures
        seconds == encode_spec(
            year as nat,
            month as nat,
            week as nat,
            day as nat,
            hour as nat,
            minute as nat,
            second as nat,
        ),
{
    let mut seconds: u64 = 0;
    seconds += year * SECONDS_PER_YEAR;
    seconds += month * SECONDS_PER_MONTH;
    seconds += week * SECONDS_PER_WEEK;
    seconds += day * SECONDS_PER_DAY;
    seconds += hour * SECONDS_PER_HOUR;
    seconds += minute * SECONDS_PER_MINUTE;
    seconds += second;
    seconds
}

/// The fields of `seconds`, as (year, month, week, day, hour, minute,
/// second), taken out from the year down by division and remainder.
pub fn decode(seconds: u64) -> (fields: (u64, u64, u64, u64, u64, u64, u64))
    ensures
        (
            fields.0 as nat,
            fields.1 as nat,
            fields.2 as nat,
            fields.3 as nat,
            fields.4 as nat,
            fields.5 as nat,
            fields.6 as nat,
        ) == decode_spec(seconds as nat),
{
    proof {
        lemma_places(seconds as nat);
    }
    let mut rest: u64 = seconds;
    let year: u64 = rest / SECONDS_PER_YEAR;
    rest -= year * SECONDS_PER_YEAR;
    assert(rest == seconds % 100_000_000);
    let month: u64 = rest / SECONDS_PER_MONTH;
    rest -= month * SECONDS_PER_MONTH;
    assert(month == seconds / 10_000_000 % 10 && rest == seconds % 10_000_000) by {
        lemma_fundamental_div_mod_converse(
            (seconds % 100_000_000) as int,
            10_000_000,
            (seconds / 10_000_000 % 10) as int,
            (seconds % 10_000_000) as int,
        );
    }
    let week: u64 = rest / SECONDS_PER_WEEK;
    rest -= week * SECONDS_PER_WEEK;
    assert(week == seconds / 1_000_000 % 10 && rest == seconds % 1_000_000) by {
        lemma_fundamental_div_mod_converse(
            (seconds % 10_000_000) as int,
            1_000_000,
            (seconds / 1_000_000 % 10) as int,
            (seconds % 1_000_000) as int,
        );
    }
    let day: u64 = rest / SECONDS_PER_DAY;
    rest -= day * SECONDS_PER_DAY;
    assert(day == seconds / 100_000 % 10 && rest == seconds % 100_000) by {
        lemma_fundamental_div_mod_converse(
            (seconds % 1_000_000) as int,
            100_000,
            (seconds / 100_000 % 10) as int,
            (seconds % 100_000) as int,
        );
    }
    let hour: u64 = rest / SECONDS_PER_HOUR;
    rest -= hour * SECONDS_PER_HOUR;
    assert(hour == seconds / 10_000 % 10 && rest == seconds % 10_000) by {
        lemma_fundamental_div_mod_converse(
            (seconds % 100_000) as int,
            10_000,
            (seconds / 10_000 % 10) as int,
            (seconds % 10_000) as int,
        );
    }
    let minute: u64 = rest / SECONDS_PER_MINUTE;
    rest -= minute * SECONDS_PER_MINUTE;
    assert(minute == seconds / 100 % 100 && rest == seconds % 100) by {
        lemma_fundamental_div_mod_converse(
            (seconds % 10_000) as int,
            100,
            (seconds / 100 % 100) as int,
            (seconds % 100) as int,
        );
    }
    (year, month, week, day, hour, minute, rest)
}

/// What is left of `seconds` below each place is the digit at the next place
/// down, times that place, and what is left below that one.
proof fn lemma_places(seconds: nat)
    ensures
        seconds == seconds / 100_000_000 * 100_000_000 + seconds % 100_000_000,
        seconds % 100_000_000 == seconds / 10_000_000 % 10 * 10_000_000 + seconds % 10_000_000,
        seconds % 10_000_000 == seconds / 1_000_000 % 10 * 1_000_000 + seconds % 1_000_000,
        seconds % 1_000_000 == seconds / 100_000 % 10 * 100_000 + seconds % 100_000,
        seconds % 100_000 == seconds / 10_000 % 10 * 10_000 + seconds % 10_000,
        seconds % 10_000 == seconds / 100 % 100 * 100 + seconds % 100,
{
    let n = seconds as int;
    lemma_mod_breakdown(n, 10_000_000, 10);
    lemma_mod_breakdown(n, 1_000_000, 10);
    lemma_mod_breakdown(n, 100_000, 10);
    lemma_mod_breakdown(n, 10_000, 10);
    lemma_mod_breakdown(n, 100, 100);
}

/// Decoding always gives fields within their ranges, whatever the seconds.
pub proof fn decode_is_canonical(seconds: nat)
    ensures
        ({
            let f = decode_spec(seconds);
            is_canonical(f.1, f.2, f.3, f.4, f.5, f.6)
        }),
{
}

/// Decoding what canonical fields encode to gives the same seven fields back.
pub proof fn decode_inverts_encode(
    year: nat,
    month: nat,
    week: nat,
    day: nat,
    hour: nat,
    minute: nat,
    second: nat,
)
    requires
        is_canonical(month, week, day, hour, minute, second),
    ensures
        decode_spec(encode_spec(year, month, week, day, hour, minute, second)) == (
            year,
            month,
            week,
            day,
            hour,
            minute,
            second,
        ),
{
    let n = encode_spec(year, month, week, day, hour, minute, second) as int;
    let (y, mo, w, d, h, mi, s) = (
        year as int,
        month as int,
        week as int,
        day as int,
        hour as int,
        minute as int,
        second as int,
    );
    // What stands above each place, and what stands below it.
    let above_month = y * 10 + mo;
    let above_week = above_month * 10 + w;
    let above_day = above_week * 10 + d;
    let above_hour = above_day * 10 + h;
    let above_minute = above_hour * 100 + mi;
    let below_hour = mi * 100 + s;
    let below_day = h * 10_000 + below_hour;
    let below_week = d * 100_000 + below_day;
    let below_month = w * 1_000_000 + below_week;
    let below_year = mo * 10_000_000 + below_month;
    lemma_fundamental_div_mod_converse(n, 100_000_000, y, below_year);
    lemma_fundamental_div_mod_converse(n, 10_000_000, above_month, below_month);
    lemma_fundamental_div_mod_converse(above_month, 10, y, mo);
    lemma_fundamental_div_mod_converse(n, 1_000_000, above_week, below_week);
    lemma_fundamental_div_mod_converse(above_week, 10, above_month, w);
    lemma_fundamental_div_mod_converse(n, 100_000, above_day, below_day);
    lemma_fundamental_div_mod_converse(above_day, 10, above_week, d);
    lemma_fundamental_div_mod_converse(n, 10_000, above_hour, below_hour);
    lemma_fundamental_div_mod_converse(above_hour, 10, above_day, h);
    lemma_fundamental_div_mod_converse(n, 100, above_minute, s);
    lemma_fundamental_div_mod_converse(above_minute, 100, above_hour, mi);
}

/// Encoding the fields that decoding gives restores the seconds.
pub proof fn encode_inverts_decode(seconds: nat)
    ensures
        ({
            let f = decode_spec(seconds);
            encode_spec(f.0, f.1, f.2, f.3, f.4, f.5, f.6) == seconds
        }),
{
    lemma_places(seconds);
}

/// Fields outside their ranges decode to the canonical fields of the same
/// number of seconds: encoding those gives the seconds again.
pub proof fn decode_normalizes(
    year: nat,
    month: nat,
    week: nat,
    day: nat,
    hour: nat,
    minute: nat,
    second: nat,
)
    ensures
        ({
            let f = decode_spec(encode_spec(year, month, week, day, hour, minute, second));
            &&& is_canonical(f.1, f.2, f.3, f.4, f.5, f.6)
            &&& encode_spec(f.0, f.1, f.2, f.3, f.4, f.5, f.6) == encode_spec(
                year,
                month,
                week,
                day,
                hour,
                minute,
                second,
            )
        }),
{
    encode_inverts_decode(encode_spec(year, month, week, day, hour, minute, second));
}

} // verus!
