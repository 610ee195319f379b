use rcwi::time_select::{now, resolve, to_offset, to_time, RelativeUnit, Time, TimeError,
    TimeSelector, TimeSelectorInput};

#[test]
fn parse_relative_minutes() {
    assert_eq!(to_time("30m"), Ok(Time::Relative(RelativeUnit::Minutes, 30)));
}

#[test]
fn parse_now() {
    assert_eq!(to_time("now"), Ok(Time::Now));
}

#[test]
fn parse_date_midnight_utc() {
    assert_eq!(to_time("2024-01-01"), Ok(Time::Specific(1704067200)));
}

#[test]
fn parse_bare_number_fails() {
    assert_eq!(to_time("30"), Err(TimeError::Incomplete));
    assert_eq!(TimeError::Incomplete.message(), "Something wrong");
}

#[test]
fn parse_other_units() {
    assert_eq!(to_time("10s"), Ok(Time::Relative(RelativeUnit::Seconds, 10)));
    assert_eq!(to_time("5h"), Ok(Time::Relative(RelativeUnit::Hours, 5)));
    assert_eq!(to_time("2d"), Ok(Time::Relative(RelativeUnit::Days, 2)));
}

#[test]
fn parse_is_case_insensitive_and_trimmed() {
    assert_eq!(to_time("  NOW  "), Ok(Time::Now));
    assert_eq!(to_time("30M"), Ok(Time::Relative(RelativeUnit::Minutes, 30)));
}

#[test]
fn parse_rfc3339() {
    assert_eq!(to_time("2024-01-01T00:00:00Z"), Ok(Time::Specific(1704067200)));
    assert_eq!(to_time("2024-01-01T00:00:00+01:00"), Ok(Time::Specific(1704063600)));
}

#[test]
fn parse_datetime_utc() {
    assert_eq!(to_time("2024-01-01 12:30:00"), Ok(Time::Specific(1704112200)));
}

#[test]
fn parse_bad_specific() {
    assert_eq!(to_time("2024-13-01"), Err(TimeError::BadSpecific));
    assert_eq!(TimeError::BadSpecific.message(), "Could not parse specific datetime");
}

#[test]
fn parse_unknown_character() {
    assert_eq!(to_time("5x"), Err(TimeError::UnknownChar));
    assert_eq!(
        TimeError::UnknownChar.message(),
        "Could not parse relative or specific datetime"
    );
}

#[test]
fn parse_unit_not_at_end() {
    assert_eq!(to_time("5m2"), Err(TimeError::InvalidSuffix));
    assert_eq!(TimeError::InvalidSuffix.message(), "Invalid relative suffix");
}

#[test]
fn parse_missing_or_oversized_number() {
    assert_eq!(to_time("s"), Err(TimeError::InvalidNumber(RelativeUnit::Seconds)));
    assert_eq!(
        to_time("99999999999999s"),
        Err(TimeError::InvalidNumber(RelativeUnit::Seconds))
    );
    assert_eq!(
        TimeError::InvalidNumber(RelativeUnit::Seconds).message(),
        "Invalid number of seconds"
    );
    assert_eq!(
        TimeError::InvalidNumber(RelativeUnit::Days).message(),
        "Invalid number of days"
    );
}

#[test]
fn parse_empty_fails() {
    assert_eq!(to_time(""), Err(TimeError::Incomplete));
}

#[test]
fn display_relative_round_trips() {
    let t = Time::Relative(RelativeUnit::Minutes, 30);
    assert_eq!(t.display(), "30m");
    assert_eq!(to_time(&t.display()), Ok(t));
    let long = Time::Relative(RelativeUnit::Days, 1234567);
    assert_eq!(long.display(), "1234567d");
    assert_eq!(to_time(&long.display()), Ok(long));
}

#[test]
fn display_now_and_specific() {
    assert_eq!(Time::Now.display(), "now");
    assert_eq!(Time::Specific(1704067200).display(), "2024-01-01T00:00:00Z");
}

#[test]
fn offset_seconds_per_unit() {
    assert_eq!(to_offset(RelativeUnit::Seconds, 1), 1);
    assert_eq!(to_offset(RelativeUnit::Minutes, 2), 120);
    assert_eq!(to_offset(RelativeUnit::Hours, 1), 3600);
    assert_eq!(to_offset(RelativeUnit::Days, 3), 259200);
}

#[test]
fn resolve_relative_start_against_now() {
    let r = resolve(&Time::Relative(RelativeUnit::Hours, 1), &Time::Now, 1000000);
    assert_eq!(r, Ok((996400, 1000000)));
}

#[test]
fn resolve_relative_end_against_start() {
    let r = resolve(&Time::Now, &Time::Relative(RelativeUnit::Minutes, 2), 500);
    assert_eq!(r, Ok((500, 620)));
}

#[test]
fn resolve_both_relative_fails() {
    let r = resolve(
        &Time::Relative(RelativeUnit::Hours, 1),
        &Time::Relative(RelativeUnit::Minutes, 5),
        0,
    );
    assert_eq!(r, Err(TimeError::BothRelative));
    assert_eq!(
        TimeError::BothRelative.message(),
        "Both start and end time can't be relative"
    );
}

#[test]
fn resolve_keeps_inverted_window() {
    let r = resolve(&Time::Specific(100), &Time::Specific(50), 0);
    assert_eq!(r, Ok((100, 50)));
}

#[test]
fn selector_from_strings_and_timestamps() {
    let sel = TimeSelector::from_strings("1h", "now").unwrap();
    assert!(!sel.popup);
    assert_eq!(sel.selected_start_string, "1h");
    assert_eq!(sel.selected_end_string, "now");
    assert_eq!(sel.input, TimeSelectorInput::Start);
    let before = now();
    let (start, end) = sel.to_timestamps();
    let after = now();
    assert!(before <= end && end <= after);
    assert_eq!(end - start, 3600);
}

#[test]
fn selector_rejects_two_relative_bounds() {
    assert_eq!(
        TimeSelector::from_strings("1h", "2h").err(),
        Some(TimeError::BothRelative)
    );
    assert_eq!(
        TimeSelector::from_strings("bogus", "now").err(),
        Some(TimeError::UnknownChar)
    );
}

#[test]
fn selector_default_is_the_last_hour() {
    let sel = TimeSelector::default();
    assert_eq!(sel.selected_start_string, "1h");
    assert_eq!(sel.selected_end_string, "now");
    assert_eq!(sel.selected_start, Time::Relative(RelativeUnit::Hours, 1));
    assert_eq!(sel.selected_end, Time::Now);
    let (start, end) = sel.to_timestamps();
    assert_eq!(end - start, 3600);
}

#[test]
fn selector_resolves_two_specific_bounds() {
    let sel = TimeSelector::from_strings("2024-01-01", "2024-01-02").unwrap();
    let (start, end) = sel.to_timestamps();
    assert_eq!(start, 1704067200);
    assert_eq!(end, 1704153600);
}
