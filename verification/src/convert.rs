//! The time converter: shifts a time of day from one zone to another by the
//! difference of their fixed UTC offsets, wrapping across the day boundary
//! with true mathematical modulo and carrying fractional-hour offsets into
//! the minutes field. Seconds pass through unchanged.

use vstd::arithmetic::div_mod::lemma_fundamental_div_mod;
use vstd::arithmetic::div_mod::lemma_fundamental_div_mod_converse;
use vstd::arithmetic::div_mod::lemma_mod_add_multiples_vanish;
use vstd::arithmetic::div_mod::lemma_mod_bound;
use vstd::arithmetic::div_mod::lemma_mod_multiples_vanish;
use vstd::prelude::*;

use crate::time::spec_format_time;
use crate::time::spec_parse_time;
use crate::time::spec_time_format_ok;
use crate::time::parse_time;
use crate::time::TimeOfDay;
use crate::tz::spec_offset_quarters;
use crate::tz::Timezone;

verus! {

/// Minutes on the clock face since midnight.
pub open spec fn spec_total_minutes(t: TimeOfDay) -> int {
    t.hour * 60 + t.minute
}

/// The clock shift from source to target, in minutes: fifteen minutes per
/// quarter-hour tick of offset difference. May be negative or zero.
pub open spec fn spec_delta_minutes(source: Timezone, target: Timezone) -> int {
    15 * (spec_offset_quarters(target) - spec_offset_quarters(source))
}

/// The converted time: the clock-face minutes shifted by the offset
/// difference and wrapped into one day (`%` here is mathematical modulo,
/// so a negative shift wraps back into the previous day's range), then
/// split back into hour and minute. Seconds pass through unchanged.
pub open spec fn spec_convert(t: TimeOfDay, source: Timezone, target: Timezone) -> TimeOfDay {
    let total = (spec_total_minutes(t) + spec_delta_minutes(source, target)) % 1440;
    TimeOfDay {
        hour: (total / 60) as u8,
        minute: (total % 60) as u8,
        second: t.second,
    }
}

/// Converts a time of day from the source zone to the target zone. Total:
/// every valid time and pair of zones yields a valid time, with the seconds
/// unchanged.
pub fn convert(time: TimeOfDay, source: Timezone, target: Timezone) -> (r: TimeOfDay)
    requires
        time.wf(),
    ensures
        r == spec_convert(time, source, target),
        r.wf(),
        r.second == time.second,
{
    let oq_source: i32 = source.offset();
    let oq_target: i32 = target.offset();
    let delta: i32 = 15 * (oq_target - oq_source);
    let total: i32 = (time.hour as i32) * 60 + (time.minute as i32);
    let shifted: i32 = total + delta;
    let wrapped: i32 = if shifted < 0 {
        shifted + 1440
    } else if shifted >= 1440 {
        shifted - 1440
    } else {
        shifted
    };
    proof {
        if shifted < 0 {
            lemma_mod_add_multiples_vanish(shifted as int, 1440);
            lemma_fundamental_div_mod_converse(
                shifted as int + 1440,
                1440,
                0,
                shifted as int + 1440,
            );
        } else if shifted >= 1440 {
            lemma_mod_add_multiples_vanish(shifted as int - 1440, 1440);
            lemma_fundamental_div_mod_converse(
                shifted as int - 1440,
                1440,
                0,
                shifted as int - 1440,
            );
        } else {
            lemma_fundamental_div_mod_converse(shifted as int, 1440, 0, shifted as int);
        }
        assert(wrapped as int == (spec_total_minutes(time) + spec_delta_minutes(source, target))
            % 1440);
    }
    let w: u32 = wrapped as u32;
    let hh: u32 = w / 60;
    let mm: u32 = w % 60;
    proof {
        assert(hh < 24) by (nonlinear_arith)
            requires
                w < 1440,
                hh == w / 60,
        ;
    }
    TimeOfDay { hour: hh as u8, minute: mm as u8, second: time.second }
}

/// Law: converting a zone to itself returns the time unchanged, for every
/// valid time and every zone.
pub proof fn lemma_convert_identity(t: TimeOfDay, z: Timezone)
    requires
        t.wf(),
    ensures
        spec_convert(t, z, z) == t,
{
    let total = spec_total_minutes(t);
    lemma_fundamental_div_mod_converse(total, 1440, 0, total);
    lemma_fundamental_div_mod_converse(total, 60, t.hour as int, t.minute as int);
}

/// Law: converting from one zone to another and back returns the time
/// unchanged, for every valid time and every pair of zones.
pub proof fn lemma_convert_round_trip(t: TimeOfDay, a: Timezone, b: Timezone)
    requires
        t.wf(),
    ensures
        spec_convert(spec_convert(t, a, b), b, a) == t,
{
    let total = spec_total_minutes(t);
    let d = spec_delta_minutes(a, b);
    let n1 = (total + d) % 1440;
    lemma_mod_bound(total + d, 1440);
    assert(n1 / 60 < 24) by (nonlinear_arith)
        requires
            0 <= n1 < 1440,
    ;
    lemma_mod_bound(n1, 60);
    let t1 = spec_convert(t, a, b);
    lemma_fundamental_div_mod(n1, 60);
    assert(spec_total_minutes(t1) == n1);
    // Undo the shift: n1 differs from total + d by a whole number of days,
    // so shifting by -d lands a whole number of days away from total.
    lemma_fundamental_div_mod(total + d, 1440);
    let k = (total + d) / 1440;
    assert(n1 - d == 1440 * (-k) + total);
    lemma_mod_multiples_vanish(-k, total, 1440);
    lemma_fundamental_div_mod_converse(total, 1440, 0, total);
    assert((n1 - d) % 1440 == total);
    assert(spec_delta_minutes(b, a) == -d);
    lemma_fundamental_div_mod_converse(total, 60, t.hour as int, t.minute as int);
}

/// End-to-end conversion of a well-formed `HH:MM:SS` string: the parsed
/// time, converted and rendered back in canonical zero-padded form.
pub open spec fn spec_convert_time(s: Seq<char>, source: Timezone, target: Timezone) -> Seq<
    char,
>
    recommends
        spec_time_format_ok(s),
{
    match spec_parse_time(s) {
        Some(t) => spec_format_time(spec_convert(t, source, target)),
        None => Seq::empty(),
    }
}

/// Converts a time-of-day string from the source zone to the target zone
/// and renders the result. The input must already have the exact shape
/// `HH:MM:SS`; `crate::time::valid_time_format` decides that.
pub fn convert_time(time_orig: &str, source: Timezone, target: Timezone) -> (r: String)
    requires
        spec_time_format_ok(time_orig@),
    ensures
        r@ == spec_convert_time(time_orig@, source, target),
{
    match parse_time(time_orig) {
        Some(t) => {
            let converted = convert(t, source, target);
            converted.to_string()
        },
        None => {
            proof {
                assert(false);
            }
            String::new()
        },
    }
}

} // verus!
