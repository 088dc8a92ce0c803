//! Rendering of a duration, given in seconds, as a short human-readable
//! string: seconds under a minute, else whole minutes under an hour, else
//! whole hours under a day, else whole days.

use vstd::prelude::*;

use crate::util::strings::string_push;

verus! {

/// The character for a single decimal digit.
pub open spec fn spec_digit_char(d: nat) -> char {
    if d == 0 {
        '0'
    } else if d == 1 {
        '1'
    } else if d == 2 {
        '2'
    } else if d == 3 {
        '3'
    } else if d == 4 {
        '4'
    } else if d == 5 {
        '5'
    } else if d == 6 {
        '6'
    } else if d == 7 {
        '7'
    } else if d == 8 {
        '8'
    } else {
        '9'
    }
}

/// The usual decimal rendering of a natural number, most significant digit
/// first, with no leading zeros (`0` itself is rendered as "0").
pub open spec fn spec_decimal(n: nat) -> Seq<char>
    decreases n,
{
    if n < 10 {
        seq![spec_digit_char(n)]
    } else {
        spec_decimal(n / 10).push(spec_digit_char(n % 10))
    }
}

/// The decimal rendering of a signed number: a leading '-' for negatives.
pub open spec fn spec_signed_decimal(n: int) -> Seq<char> {
    if n < 0 {
        seq!['-'] + spec_decimal((-n) as nat)
    } else {
        spec_decimal(n as nat)
    }
}

/// What `format_duration` returns: the quantity in the largest fitting unit,
/// followed by that unit's letter. Durations under a minute keep their sign;
/// the other branches only see nonnegative values.
pub open spec fn spec_format_duration(seconds: int) -> Seq<char> {
    if seconds < 60 {
        spec_signed_decimal(seconds).push('s')
    } else if seconds < 3600 {
        spec_decimal((seconds / 60) as nat).push('m')
    } else if seconds < 86400 {
        spec_decimal((seconds / 3600) as nat).push('h')
    } else {
        spec_decimal((seconds / 86400) as nat).push('d')
    }
}

fn digit_char(d: u64) -> (c: char)
    requires
        d < 10,
    ensures
        c == spec_digit_char(d as nat),
{
    if d == 0 {
        '0'
    } else if d == 1 {
        '1'
    } else if d == 2 {
        '2'
    } else if d == 3 {
        '3'
    } else if d == 4 {
        '4'
    } else if d == 5 {
        '5'
    } else if d == 6 {
        '6'
    } else if d == 7 {
        '7'
    } else if d == 8 {
        '8'
    } else {
        '9'
    }
}

/// Appends the decimal rendering of `n` to `s`.
fn push_decimal(s: &mut String, n: u64)
    ensures
        final(s)@ == old(s)@ + spec_decimal(n as nat),
    decreases n,
{
    if n >= 10 {
        push_decimal(s, n / 10);
    }
    string_push(s, digit_char(n % 10));
}

/// Formats a duration in seconds as its quantity in the largest fitting
/// unit: "59s", "3m", "12h", "2d".
pub fn format_duration(seconds: i64) -> (r: String)
    ensures
        r@ == spec_format_duration(seconds as int),
{
    let mut out: String = String::new();
    if seconds < 60 {
        if seconds < 0 {
            string_push(&mut out, '-');
            let magnitude: u64 = (-(seconds as i128)) as u64;
            push_decimal(&mut out, magnitude);
        } else {
            push_decimal(&mut out, seconds as u64);
        }
        string_push(&mut out, 's');
    } else if seconds < 3600 {
        push_decimal(&mut out, (seconds / 60) as u64);
        string_push(&mut out, 'm');
    } else if seconds < 86400 {
        push_decimal(&mut out, (seconds / 3600) as u64);
        string_push(&mut out, 'h');
    } else {
        push_decimal(&mut out, (seconds / 86400) as u64);
        string_push(&mut out, 'd');
    }
    out
}

} // verus!
