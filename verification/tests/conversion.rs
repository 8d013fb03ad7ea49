use tzconvert::convert::{convert, convert_time};
use tzconvert::time::TimeOfDay;
use tzconvert::tz::Timezone;

#[test]
fn identity_same_zone() {
    let t = TimeOfDay { hour: 12, minute: 34, second: 56 };
    assert_eq!(convert(t, Timezone::JST, Timezone::JST), t);
    assert_eq!(convert(t, Timezone::PDT, Timezone::PDT), t);
}

#[test]
fn zones_with_equal_offsets_leave_time_unchanged() {
    let t = TimeOfDay { hour: 6, minute: 30, second: 15 };
    assert_eq!(convert(t, Timezone::MYT, Timezone::AWST), t);
    assert_eq!(convert(t, Timezone::AWST, Timezone::MYT), t);
}

#[test]
fn round_trip_returns_input() {
    let t = TimeOfDay { hour: 2, minute: 0, second: 0 };
    let there = convert(t, Timezone::ACWST, Timezone::UTC);
    assert_eq!(convert(there, Timezone::UTC, Timezone::ACWST), t);

    let t2 = TimeOfDay { hour: 23, minute: 45, second: 30 };
    let there2 = convert(t2, Timezone::UTC, Timezone::LHST);
    assert_eq!(convert(there2, Timezone::LHST, Timezone::UTC), t2);
}

#[test]
fn hour_wrap_below_zero() {
    assert_eq!(
        convert_time("02:00:00", Timezone::JST, Timezone::PDT),
        "10:00:00"
    );
}

#[test]
fn fractional_offset_minute_carry() {
    assert_eq!(
        convert_time("00:00:00", Timezone::UTC, Timezone::ACWST),
        "08:45:00"
    );
}

#[test]
fn compounded_carry() {
    assert_eq!(
        convert_time("23:45:00", Timezone::UTC, Timezone::LHST),
        "10:15:00"
    );
}

#[test]
fn seconds_pass_through_unchanged() {
    assert_eq!(
        convert_time("12:34:56", Timezone::JST, Timezone::PDT),
        "20:34:56"
    );
    let t = TimeOfDay { hour: 1, minute: 2, second: 43 };
    assert_eq!(convert(t, Timezone::EST, Timezone::ACST).second, 43);
}

#[test]
fn minute_carry_wraps_hour_to_zero() {
    assert_eq!(
        convert_time("13:45:00", Timezone::UTC, Timezone::LHST),
        "00:15:00"
    );
}

#[test]
fn shift_landing_on_24_reduces_to_zero() {
    assert_eq!(
        convert_time("14:00:00", Timezone::UTC, Timezone::AEST),
        "00:00:00"
    );
}

#[test]
fn negative_fractional_offset_wraps_true_modulo() {
    assert_eq!(
        convert_time("02:00:00", Timezone::ACWST, Timezone::UTC),
        "17:15:00"
    );
}

#[test]
fn half_hour_zone_to_quarter_hour_zone() {
    assert_eq!(
        convert_time("09:30:00", Timezone::ACST, Timezone::ACWST),
        "08:45:00"
    );
}
