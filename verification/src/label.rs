//! Human-readable rendering of a remaining time.
//!
//! A duration is shown at decreasing resolution — days, hours, minutes,
//! seconds — with each unit present only when non-zero, and seconds present
//! whenever every other unit is zero. Whole seconds still running are shown
//! rounded up, so a remaining time of 45 whole seconds reads `46 second(s)`;
//! an expired timer reads `0 second(s)`.

use vstd::prelude::*;

verus! {

/// Seconds per day.
pub const SECS_PER_DAY: u64 = 86400;

/// Seconds per hour.
pub const SECS_PER_HOUR: u64 = 3600;

/// Seconds per minute.
pub const SECS_PER_MINUTE: u64 = 60;

/// The ASCII character of a single decimal digit.
pub open spec fn spec_digit(d: nat) -> char {
    if d == 0 {
        '0'
    } else if d == 1 {
        '1'
    } else if d == 2 {
        '2'
    } else if d == 3 {
        '3'
    } else if d == 4 {
        '4'
    } else if d == 5 {
        '5'
    } else if d == 6 {
        '6'
    } else if d == 7 {
        '7'
    } else if d == 8 {
        '8'
    } else {
        '9'
    }
}

/// The decimal rendering of a number, without padding.
pub open spec fn spec_dec(n: nat) -> Seq<char>
    decreases n,
{
    if n < 10 {
        seq![spec_digit(n)]
    } else {
        spec_dec(n / 10).push(spec_digit(n % 10))
    }
}

/// The rendering of `secs` seconds at decreasing resolution.
///
/// Units are separated by `, `; a unit appears only when non-zero; seconds
/// appear whenever every larger unit is absent, and otherwise whenever
/// non-zero. A still-running fraction rounds the shown seconds up by one;
/// zero seconds overall reads `0 second(s)`.
pub open spec fn spec_format_duration(secs: u64) -> Seq<char> {
    let days = secs / (SECS_PER_DAY as u64);
    let hours = (secs / (SECS_PER_HOUR as u64)) % 24;
    let minutes = (secs / (SECS_PER_MINUTE as u64)) % 60;
    let seconds = secs % 60;
    let day_part = if days > 0 {
        spec_dec(days as nat) + " day(s)"@
    } else {
        Seq::empty()
    };
    let hour_part = if hours > 0 {
        (if days > 0 {
            ", "@
        } else {
            Seq::empty()
        }) + spec_dec(hours as nat) + " hour(s)"@
    } else {
        Seq::empty()
    };
    let minute_part = if minutes > 0 {
        (if days > 0 || hours > 0 {
            ", "@
        } else {
            Seq::empty()
        }) + spec_dec(minutes as nat) + " minute(s)"@
    } else {
        Seq::empty()
    };
    let shown_seconds: nat = if secs == 0 {
        0
    } else {
        (seconds + 1) as nat
    };
    let second_part = if seconds > 0 || (days == 0 && hours == 0 && minutes == 0) {
        (if days > 0 || hours > 0 || minutes > 0 {
            ", "@
        } else {
            Seq::empty()
        }) + spec_dec(shown_seconds) + " second(s)"@
    } else {
        Seq::empty()
    };
    day_part + hour_part + minute_part + second_part
}

/// The single-character string of a decimal digit.
fn digit_str(d: u64) -> (r: &'static str)
    requires
        d < 10,
    ensures
        r@ == seq![spec_digit(d as nat)],
{
    proof {
        reveal_strlit("0");
        reveal_strlit("1");
        reveal_strlit("2");
        reveal_strlit("3");
        reveal_strlit("4");
        reveal_strlit("5");
        reveal_strlit("6");
        reveal_strlit("7");
        reveal_strlit("8");
        reveal_strlit("9");
    }
    match d {
        0 => "0",
        1 => "1",
        2 => "2",
        3 => "3",
        4 => "4",
        5 => "5",
        6 => "6",
        7 => "7",
        8 => "8",
        _ => "9",
    }
}

/// Append the decimal rendering of `n` to `out`.
fn push_dec(n: u64, out: &mut String)
    ensures
        final(out)@ == old(out)@ + spec_dec(n as nat),
    decreases n,
{
    if n >= 10 {
        push_dec(n / 10, out);
    }
    out.append(digit_str(n % 10));
    proof {
        assert(final(out)@ =~= old(out)@ + spec_dec(n as nat));
    }
}

/// Format a duration of `secs` seconds as a human-readable string,
/// adjusting the resolution to the magnitude.
pub fn format_duration(secs: u64) -> (r: String)
    ensures
        r@ == spec_format_duration(secs),
{
    let days = secs / SECS_PER_DAY;
    let hours = (secs / SECS_PER_HOUR) % 24;
    let minutes = (secs / SECS_PER_MINUTE) % 60;
    let seconds = secs % 60;
    let mut out = String::new();
    if days > 0 {
        push_dec(days, &mut out);
        out.append(" day(s)");
    }
    if hours > 0 {
        if days > 0 {
            out.append(", ");
        }
        push_dec(hours, &mut out);
        out.append(" hour(s)");
    }
    if minutes > 0 {
        if days > 0 || hours > 0 {
            out.append(", ");
        }
        push_dec(minutes, &mut out);
        out.append(" minute(s)");
    }
    if seconds > 0 || (days == 0 && hours == 0 && minutes == 0) {
        if days > 0 || hours > 0 || minutes > 0 {
            out.append(", ");
        }
        let shown = if secs == 0 {
            0
        } else {
            seconds + 1
        };
        push_dec(shown, &mut out);
        out.append(" second(s)");
    }
    proof {
        assert(out@ =~= spec_format_duration(secs));
    }
    out
}

} // verus!
