//! The time of day shown beside a message: hours and minutes on a viewer's
//! wall clock, and their `HH:MM` text.

use vstd::arithmetic::div_mod::lemma_add_mod_noop;
use vstd::prelude::*;
use vstd::string::StringExecFns;

verus! {

/// Milliseconds in a minute.
pub const MILLIS_PER_MINUTE: u64 = 60_000;

/// Minutes in a day.
pub const MINUTES_PER_DAY: u32 = 1_440;

/// The character that writes the decimal digit `d`.
pub open spec fn digit_char(d: nat) -> char
    recommends
        d < 10,
{
    (48 + d) as u8 as char
}

/// `n` in decimal, without leading zeros.
pub open spec fn decimal(n: nat) -> Seq<char>
    decreases n,
{
    if n < 10 {
        seq![digit_char(n)]
    } else {
        decimal(n / 10).push(digit_char(n % 10))
    }
}

/// `n` in decimal, with a zero in front where it has a single digit.
pub open spec fn two_digits(n: nat) -> Seq<char> {
    if n < 10 {
        seq!['0'] + decimal(n)
    } else {
        decimal(n)
    }
}

/// The text of a time of day: hours and minutes, two digits each at least,
/// with a colon between them.
pub open spec fn clock_text(hours: nat, minutes: nat) -> Seq<char> {
    two_digits(hours) + seq![':'] + two_digits(minutes)
}

/// The minute of the day, counted from midnight, that a clock `offset`
/// minutes ahead of UTC shows at `timestamp` milliseconds since the epoch.
pub open spec fn minute_of_day(timestamp: nat, offset: int) -> int {
    (timestamp / 60_000 + offset) % 1_440
}

/// A time of day on some viewer's wall clock.
#[derive(Clone, Copy, Debug, PartialEq, Eq, Structural)]
pub struct ClockTime {
    /// Hours since midnight.
    pub hours: u32,
    /// Minutes since the full hour.
    pub minutes: u32,
}

impl ClockTime {
    /// The time of day a clock shows at `timestamp` milliseconds since the
    /// epoch if it runs `offset_minutes` ahead of UTC (behind, where the
    /// offset is negative).
    pub fn at_utc_offset(timestamp: u64, offset_minutes: i32) -> (time: ClockTime)
        ensures
            time.hours == minute_of_day(timestamp as nat, offset_minutes as int) / 60,
            time.minutes == minute_of_day(timestamp as nat, offset_minutes as int) % 60,
            time.hours < 24,
            time.minutes < 60,
    {
        let utc: u32 = ((timestamp / MILLIS_PER_MINUTE) % (MINUTES_PER_DAY as u64)) as u32;
        let shift: u32 = if offset_minutes >= 0 {
            (offset_minutes as u32) % MINUTES_PER_DAY
        } else {
            let behind: u32 = ((-(offset_minutes as i64)) as u32) % MINUTES_PER_DAY;
            if behind == 0 {
                0
            } else {
                MINUTES_PER_DAY - behind
            }
        };
        let minute: u32 = (utc + shift) % MINUTES_PER_DAY;
        proof {
            let whole = (timestamp / 60_000) as int;
            let offset = offset_minutes as int;
            assert(minute as int == (whole + offset) % 1_440) by {
                lemma_add_mod_noop(whole, offset, 1_440);
            }
        }
        ClockTime { hours: minute / 60, minutes: minute % 60 }
    }
}

/// A number below a hundred is written in exactly two digits, so the text of
/// a time of day on a 24-hour clock is five characters long: two digits, a
/// colon, two digits.
pub proof fn law_clock_text_is_hh_mm(hours: nat, minutes: nat)
    requires
        hours < 100,
        minutes < 100,
    ensures
        clock_text(hours, minutes) == seq![
            digit_char(hours / 10),
            digit_char(hours % 10),
            ':',
            digit_char(minutes / 10),
            digit_char(minutes % 10),
        ],
{
    reveal_with_fuel(decimal, 2);
}

/// The one-character text of the decimal digit `d`.
fn digit_str(d: u32) -> (text: &'static str)
    requires
        d < 10,
    ensures
        text@ == seq![digit_char(d as nat)],
{
    proof {
        reveal_strlit("0");
        reveal_strlit("1");
        reveal_strlit("2");
        reveal_strlit("3");
        reveal_strlit("4");
        reveal_strlit("5");
        reveal_strlit("6");
        reveal_strlit("7");
        reveal_strlit("8");
        reveal_strlit("9");
    }
    let text = if d == 0 {
        "0"
    } else if d == 1 {
        "1"
    } else if d == 2 {
        "2"
    } else if d == 3 {
        "3"
    } else if d == 4 {
        "4"
    } else if d == 5 {
        "5"
    } else if d == 6 {
        "6"
    } else if d == 7 {
        "7"
    } else if d == 8 {
        "8"
    } else {
        "9"
    };
    text
}

/// Appends `n` in decimal to `out`.
pub fn push_decimal(out: &mut String, n: u32)
    ensures
        final(out)@ == old(out)@ + decimal(n as nat),
    decreases n,
{
    if n >= 10 {
        push_decimal(out, n / 10);
    }
    out.append(digit_str(n % 10));
}

/// Appends `n` in decimal to `out`, in two digits at least.
pub fn push_two_digits(out: &mut String, n: u32)
    ensures
        final(out)@ == old(out)@ + two_digits(n as nat),
{
    if n < 10 {
        proof {
            reveal_strlit("0");
        }
        out.append("0");
    }
    push_decimal(out, n);
}

/// The text `HH:MM` of a time of day on a 24-hour clock, each part padded
/// with a zero to two digits.
pub fn format_timestamp(time: ClockTime) -> (text: String)
    ensures
        text@ == clock_text(time.hours as nat, time.minutes as nat),
{
    let mut text = String::new();
    push_two_digits(&mut text, time.hours);
    proof {
        reveal_strlit(":");
    }
    text.append(":");
    push_two_digits(&mut text, time.minutes);
    text
}

} // verus!
