use calendar_tiles::weekday::Weekday;

#[test]
fn ordinals_monday_through_sunday() {
    assert_eq!(Weekday::Monday.ordinal(), 1);
    assert_eq!(Weekday::Tuesday.ordinal(), 2);
    assert_eq!(Weekday::Wednesday.ordinal(), 3);
    assert_eq!(Weekday::Thursday.ordinal(), 4);
    assert_eq!(Weekday::Friday.ordinal(), 5);
    assert_eq!(Weekday::Saturday.ordinal(), 6);
    assert_eq!(Weekday::Sunday.ordinal(), 7);
}

#[test]
fn cycle_next_steps_and_wraps() {
    assert_eq!(Weekday::Monday.cycle_next(), Weekday::Tuesday);
    assert_eq!(Weekday::Saturday.cycle_next(), Weekday::Sunday);
    assert_eq!(Weekday::Sunday.cycle_next(), Weekday::Monday);
}

#[test]
fn week_from_monday_is_in_order() {
    let week = Weekday::week_from_monday();
    assert_eq!(week.len(), 7);
    assert_eq!(week[0], Weekday::Monday);
    assert_eq!(week[6], Weekday::Sunday);
    for (k, day) in week.iter().enumerate() {
        assert_eq!(day.ordinal() as usize, k + 1);
    }
}

#[test]
fn ordinals_match_jiff() {
    let week = Weekday::week_from_monday();
    let mut cycle = jiff::civil::Weekday::Monday.cycle_forward();
    for day in week {
        let jiff_day = cycle.next().unwrap();
        assert_eq!(day.ordinal() as i8, jiff_day.to_monday_one_offset());
        assert_eq!(day.ordinal(), jiff_day as u32);
    }
}
