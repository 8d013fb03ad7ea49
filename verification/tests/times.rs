use tzconvert::time::{parse_time, valid_time_format, TimeOfDay};

#[test]
fn parse_time_accepts_well_formed() {
    assert_eq!(
        parse_time("12:34:56"),
        Some(TimeOfDay { hour: 12, minute: 34, second: 56 })
    );
    assert_eq!(
        parse_time("00:00:00"),
        Some(TimeOfDay { hour: 0, minute: 0, second: 0 })
    );
    assert_eq!(
        parse_time("23:59:59"),
        Some(TimeOfDay { hour: 23, minute: 59, second: 59 })
    );
}

#[test]
fn parse_time_rejects_out_of_range_fields() {
    assert_eq!(parse_time("24:00:00"), None);
    assert_eq!(parse_time("23:60:00"), None);
    assert_eq!(parse_time("00:00:60"), None);
    assert_eq!(parse_time("99:99:99"), None);
}

#[test]
fn parse_time_rejects_malformed_shapes() {
    assert_eq!(parse_time(""), None);
    assert_eq!(parse_time("1:23:45"), None);
    assert_eq!(parse_time("12:34:5"), None);
    assert_eq!(parse_time("12:34:567"), None);
    assert_eq!(parse_time("12-34-56"), None);
    assert_eq!(parse_time("ab:cd:ef"), None);
    assert_eq!(parse_time("12:34 56"), None);
    assert_eq!(parse_time(" 12:34:56"), None);
}

#[test]
fn valid_time_format_reports_exact_error() {
    assert_eq!(valid_time_format("07:08:09"), Ok(()));
    assert_eq!(
        valid_time_format("7:8:9"),
        Err(String::from("Doesn't match the format hh:mm:ss in 24h"))
    );
}

#[test]
fn new_checks_component_ranges() {
    assert_eq!(
        TimeOfDay::new(23, 59, 59),
        Some(TimeOfDay { hour: 23, minute: 59, second: 59 })
    );
    assert_eq!(TimeOfDay::new(24, 0, 0), None);
    assert_eq!(TimeOfDay::new(0, 60, 0), None);
    assert_eq!(TimeOfDay::new(0, 0, 60), None);
}

#[test]
fn formatting_pads_small_components_with_zero() {
    let t = TimeOfDay { hour: 3, minute: 7, second: 9 };
    assert_eq!(t.to_string(), "03:07:09");
}

#[test]
fn formatting_keeps_two_digit_components() {
    assert_eq!(TimeOfDay { hour: 0, minute: 0, second: 0 }.to_string(), "00:00:00");
    assert_eq!(TimeOfDay { hour: 23, minute: 59, second: 59 }.to_string(), "23:59:59");
    assert_eq!(TimeOfDay { hour: 10, minute: 15, second: 0 }.to_string(), "10:15:00");
}
