use robohome::data::{DayOfTheWeek, Direction, Weekday};

fn days(
    monday: bool,
    tuesday: bool,
    wednesday: bool,
    thursday: bool,
    friday: bool,
    saturday: bool,
    sunday: bool,
) -> DayOfTheWeek {
    DayOfTheWeek { monday, tuesday, wednesday, thursday, friday, saturday, sunday }
}

#[test]
fn dow_int() {
    for i in 0..128 {
        let dow: DayOfTheWeek = i.into();
        let back: i32 = dow.into();
        assert_eq!(i, back);
    }
}

#[test]
fn cron_dow() {
    let weekdays = vec![
        (Weekday::Mon, DayOfTheWeek {
            monday: true,
            tuesday: false,
            wednesday: false,
            thursday: false,
            friday: false,
            saturday: false,
            sunday: false,
        }),
        (Weekday::Tue, DayOfTheWeek {
            monday: false,
            tuesday: true,
            wednesday: false,
            thursday: false,
            friday: false,
            saturday: false,
            sunday: false,
        }),
        (Weekday::Wed, DayOfTheWeek{
            monday: false,
            tuesday: false,
            wednesday: true,
            thursday: false,
            friday: false,
            saturday: false,
            sunday: false,
        }),
        (Weekday::Thu, DayOfTheWeek {
            monday: false,
            tuesday: false,
            wednesday: false,
            thursday: true,
            friday: false,
            saturday: false,
            sunday: false,
        }),
        (Weekday::Fri, DayOfTheWeek {
            monday: false,
            tuesday: false,
            wednesday: false,
            thursday: false,
            friday: true,
            saturday: false,
            sunday: false,
        }),
        (Weekday::Sat, DayOfTheWeek {
            monday: false,
            tuesday: false,
            wednesday: false,
            thursday: false,
            friday: false,
            saturday: true,
            sunday: false,
        }),
        (Weekday::Sun, DayOfTheWeek {
            monday: false,
            tuesday: false,
            wednesday: false,
            thursday: false,
            friday: false,
            saturday: false,
            sunday: true,
        }),
    ];
    for (wd, dow) in weekdays {
        let d: DayOfTheWeek = wd.into();
        assert_eq!(d, dow);
    }
}

#[test]
fn every_set_of_days_survives_the_wire() {
    for bits in 0..128u32 {
        let set = days(
            bits & 1 != 0,
            bits & 2 != 0,
            bits & 4 != 0,
            bits & 8 != 0,
            bits & 16 != 0,
            bits & 32 != 0,
            bits & 64 != 0,
        );
        let wire: i32 = set.into();
        assert!((0..128).contains(&wire));
        assert_eq!(DayOfTheWeek::from(wire), set);
    }
}

#[test]
fn each_day_has_its_own_bit() {
    assert_eq!(i32::from(days(true, false, false, false, false, false, false)), 1);
    assert_eq!(i32::from(days(false, true, false, false, false, false, false)), 2);
    assert_eq!(i32::from(days(false, false, true, false, false, false, false)), 4);
    assert_eq!(i32::from(days(false, false, false, true, false, false, false)), 8);
    assert_eq!(i32::from(days(false, false, false, false, true, false, false)), 16);
    assert_eq!(i32::from(days(false, false, false, false, false, true, false)), 32);
    assert_eq!(i32::from(days(false, false, false, false, false, false, true)), 64);
}

#[test]
fn mask_is_the_sum_of_the_bits() {
    assert_eq!(i32::from(days(false, false, false, false, false, false, false)), 0);
    assert_eq!(i32::from(days(true, false, false, false, false, false, true)), 65);
    assert_eq!(i32::from(days(true, true, true, true, true, false, false)), 31);
    assert_eq!(i32::from(days(false, false, false, false, false, true, true)), 96);
    assert_eq!(i32::from(days(true, true, true, true, true, true, true)), 127);
}

#[test]
fn bits_above_the_seventh_are_ignored() {
    let none = days(false, false, false, false, false, false, false);
    let all = days(true, true, true, true, true, true, true);
    assert_eq!(DayOfTheWeek::from(128), none);
    assert_eq!(DayOfTheWeek::from(256), none);
    assert_eq!(DayOfTheWeek::from(128 + 5), DayOfTheWeek::from(5));
    assert_eq!(DayOfTheWeek::from(-1), all);
    assert_eq!(DayOfTheWeek::from(i32::MIN), none);
    assert_eq!(i32::from(DayOfTheWeek::from(128 + 5)), 5);
    assert_eq!(i32::from(DayOfTheWeek::from(-1)), 127);
}

#[test]
fn days_print_as_letters() {
    assert_eq!(days(false, false, false, false, false, false, false).to_string(), "");
    assert_eq!(days(true, false, true, false, true, false, false).to_string(), "MWF");
    assert_eq!(days(true, true, true, true, true, false, false).to_string(), "MTWRF");
    assert_eq!(days(false, false, false, false, false, true, false).to_string(), "SU");
    assert_eq!(days(false, false, false, false, false, false, true).to_string(), "");
    assert_eq!(days(true, true, true, true, true, true, true).to_string(), "MTWRFSU");
}

#[test]
fn direction_is_a_bool() {
    assert_eq!(Direction::from(true), Direction::On);
    assert_eq!(Direction::from(false), Direction::Off);
    assert!(bool::from(Direction::On));
    assert!(!bool::from(Direction::Off));
    let on: bool = Direction::On.into();
    assert!(on);
    let off: Direction = false.into();
    assert_eq!(off, Direction::Off);
}
