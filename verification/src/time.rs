//! Times of day: the validated hour/minute/second triple, the "HH:MM:SS"
//! grammar that admits one, and the canonical zero-padded rendering.

use vstd::prelude::*;
use vstd::string::StrSliceExecFns;
use vstd::string::StringExecFns;

verus! {

/// A time of day on a 24-hour clock: an hour/minute/second triple with no
/// associated date. Immutable value, constructed only from validated input.
#[derive(Clone, Copy, PartialEq, Eq, Structural, Debug)]
pub struct TimeOfDay {
    pub hour: u8,
    pub minute: u8,
    pub second: u8,
}

/// A decimal digit character.
pub open spec fn spec_is_digit(c: char) -> bool {
    '0' as u32 <= c as u32 && c as u32 <= '9' as u32
}

/// The numeric value of a decimal digit character.
pub open spec fn spec_digit_val(c: char) -> int {
    c as u32 - '0' as u32
}

/// The value of the two-digit field starting at index `i`.
pub open spec fn spec_two_digits(s: Seq<char>, i: int) -> int {
    10 * spec_digit_val(s[i]) + spec_digit_val(s[i + 1])
}

/// A string of the exact shape `HH:MM:SS` on a 24-hour clock: eight
/// characters, colons at positions two and five, two-digit fields with
/// hour below 24 and minute and second below 60.
pub open spec fn spec_time_format_ok(s: Seq<char>) -> bool {
    &&& s.len() == 8
    &&& s[2] == ':'
    &&& s[5] == ':'
    &&& spec_is_digit(s[0])
    &&& spec_is_digit(s[1])
    &&& spec_is_digit(s[3])
    &&& spec_is_digit(s[4])
    &&& spec_is_digit(s[6])
    &&& spec_is_digit(s[7])
    &&& spec_two_digits(s, 0) < 24
    &&& spec_two_digits(s, 3) < 60
    &&& spec_two_digits(s, 6) < 60
}

/// The time of day denoted by a well-formed `HH:MM:SS` string, and nothing
/// for any other string.
pub open spec fn spec_parse_time(s: Seq<char>) -> Option<TimeOfDay> {
    if spec_time_format_ok(s) {
        Some(TimeOfDay {
            hour: spec_two_digits(s, 0) as u8,
            minute: spec_two_digits(s, 3) as u8,
            second: spec_two_digits(s, 6) as u8,
        })
    } else {
        None
    }
}

/// The digit character with value `d`.
pub open spec fn spec_digit_char(d: int) -> char {
    if d == 0 {
        '0'
    } else if d == 1 {
        '1'
    } else if d == 2 {
        '2'
    } else if d == 3 {
        '3'
    } else if d == 4 {
        '4'
    } else if d == 5 {
        '5'
    } else if d == 6 {
        '6'
    } else if d == 7 {
        '7'
    } else if d == 8 {
        '8'
    } else {
        '9'
    }
}

/// The canonical rendering of a time of day: every component zero-padded
/// to exactly two digits, separated by colons.
pub open spec fn spec_format_time(t: TimeOfDay) -> Seq<char> {
    seq![
        spec_digit_char(t.hour as int / 10),
        spec_digit_char(t.hour as int % 10),
        ':',
        spec_digit_char(t.minute as int / 10),
        spec_digit_char(t.minute as int % 10),
        ':',
        spec_digit_char(t.second as int / 10),
        spec_digit_char(t.second as int % 10),
    ]
}

impl TimeOfDay {
    /// A valid time of day on a 24-hour clock.
    pub open spec fn wf(self) -> bool {
        self.hour < 24 && self.minute < 60 && self.second < 60
    }

    /// Builds a time of day from its components, exactly when each is in
    /// range; out-of-range components are rejected, never clamped.
    pub fn new(hour: u8, minute: u8, second: u8) -> (r: Option<TimeOfDay>)
        ensures
            hour < 24 && minute < 60 && second < 60 ==> r == Some(
                TimeOfDay { hour, minute, second },
            ),
            !(hour < 24 && minute < 60 && second < 60) ==> r is None,
    {
        if hour < 24 && minute < 60 && second < 60 {
            Some(TimeOfDay { hour, minute, second })
        } else {
            None
        }
    }

    /// Canonical zero-padded rendering, `HH:MM:SS`.
    pub fn to_string(&self) -> (r: String)
        requires
            self.wf(),
        ensures
            r@ == spec_format_time(*self),
    {
        let mut s = String::new();
        s.append(digit_str(self.hour / 10));
        s.append(digit_str(self.hour % 10));
        s.append(":");
        s.append(digit_str(self.minute / 10));
        s.append(digit_str(self.minute % 10));
        s.append(":");
        s.append(digit_str(self.second / 10));
        s.append(digit_str(self.second % 10));
        proof {
            reveal_strlit(":");
            assert(s@ =~= spec_format_time(*self));
        }
        s
    }
}

/// Hour and minute components below ten are always rendered with a leading
/// zero: the first character of their two-digit field is '0'.
pub proof fn lemma_format_leading_zeros(t: TimeOfDay)
    requires
        t.wf(),
    ensures
        t.hour < 10 ==> spec_format_time(t)[0] == '0',
        t.minute < 10 ==> spec_format_time(t)[3] == '0',
        t.second < 10 ==> spec_format_time(t)[6] == '0',
{
    if t.hour < 10 {
        assert(t.hour as int / 10 == 0) by (nonlinear_arith)
            requires t.hour < 10;
    }
    if t.minute < 10 {
        assert(t.minute as int / 10 == 0) by (nonlinear_arith)
            requires t.minute < 10;
    }
    if t.second < 10 {
        assert(t.second as int / 10 == 0) by (nonlinear_arith)
            requires t.second < 10;
    }
}

/// The one-character string for a digit value.
fn digit_str(d: u8) -> (r: &'static str)
    requires
        d < 10,
    ensures
        r@ == seq![spec_digit_char(d as int)],
{
    let r: &'static str = match d {
        0 => "0",
        1 => "1",
        2 => "2",
        3 => "3",
        4 => "4",
        5 => "5",
        6 => "6",
        7 => "7",
        8 => "8",
        _ => "9",
    };
    proof {
        reveal_strlit("0");
        reveal_strlit("1");
        reveal_strlit("2");
        reveal_strlit("3");
        reveal_strlit("4");
        reveal_strlit("5");
        reveal_strlit("6");
        reveal_strlit("7");
        reveal_strlit("8");
        reveal_strlit("9");
        assert(r@ =~= seq![spec_digit_char(d as int)]);
    }
    r
}

/// The numeric value of a digit character, and nothing for any other
/// character.
fn digit_value(c: char) -> (r: Option<u8>)
    ensures
        r is Some <==> spec_is_digit(c),
        spec_is_digit(c) ==> r == Some(spec_digit_val(c) as u8),
{
    let u = c as u32;
    if 48 <= u && u <= 57 {
        Some((u - 48) as u8)
    } else {
        None
    }
}

/// Parses a time-of-day string of the exact shape `HH:MM:SS`, rejecting
/// anything else: wrong length, misplaced separators, non-digits, or
/// out-of-range fields.
pub fn parse_time(s: &str) -> (r: Option<TimeOfDay>)
    ensures
        r == spec_parse_time(s@),
        match r {
            Some(t) => t.wf(),
            None => !spec_time_format_ok(s@),
        },
{
    if s.unicode_len() != 8 {
        return None;
    }
    if s.get_char(2) != ':' || s.get_char(5) != ':' {
        return None;
    }
    let d0 = match digit_value(s.get_char(0)) {
        Some(d) => d,
        None => {
            return None;
        },
    };
    let d1 = match digit_value(s.get_char(1)) {
        Some(d) => d,
        None => {
            return None;
        },
    };
    let d3 = match digit_value(s.get_char(3)) {
        Some(d) => d,
        None => {
            return None;
        },
    };
    let d4 = match digit_value(s.get_char(4)) {
        Some(d) => d,
        None => {
            return None;
        },
    };
    let d6 = match digit_value(s.get_char(6)) {
        Some(d) => d,
        None => {
            return None;
        },
    };
    let d7 = match digit_value(s.get_char(7)) {
        Some(d) => d,
        None => {
            return None;
        },
    };
    let hour: u8 = 10 * d0 + d1;
    let minute: u8 = 10 * d3 + d4;
    let second: u8 = 10 * d6 + d7;
    if hour >= 24 || minute >= 60 || second >= 60 {
        return None;
    }
    Some(TimeOfDay { hour, minute, second })
}

/// Checks that a string has the exact shape `HH:MM:SS` on a 24-hour clock;
/// the error text on failure names the expected format.
pub fn valid_time_format(s: &str) -> (r: Result<(), String>)
    ensures
        r is Ok <==> spec_time_format_ok(s@),
        r is Err ==> r->Err_0@ == "Doesn't match the format hh:mm:ss in 24h"@,
{
    match parse_time(s) {
        Some(_) => Ok(()),
        None => Err("Doesn't match the format hh:mm:ss in 24h".to_owned()),
    }
}

} // verus!
