use zoneclock::clock::ClockTime;
use zoneclock::period::Period;

#[test]
fn new_accepts_the_ends_of_the_day() {
    let first = ClockTime::new(0, 0, 0).unwrap();
    assert_eq!((first.hour(), first.minute(), first.second()), (0, 0, 0));
    let last = ClockTime::new(23, 59, 59).unwrap();
    assert_eq!((last.hour(), last.minute(), last.second()), (23, 59, 59));
}

#[test]
fn new_refuses_parts_out_of_range() {
    assert_eq!(ClockTime::new(24, 0, 0), None);
    assert_eq!(ClockTime::new(0, 60, 0), None);
    assert_eq!(ClockTime::new(0, 0, 60), None);
    assert_eq!(ClockTime::new(u32::MAX, u32::MAX, u32::MAX), None);
}

#[test]
fn render_pads_each_part_to_two_digits() {
    assert_eq!(ClockTime::new(0, 0, 0).unwrap().render(), "00:00:00");
    assert_eq!(ClockTime::new(9, 5, 7).unwrap().render(), "09:05:07");
    assert_eq!(ClockTime::new(14, 30, 0).unwrap().render(), "14:30:00");
    assert_eq!(ClockTime::new(23, 59, 59).unwrap().render(), "23:59:59");
}

#[test]
fn render_uses_the_twenty_four_hour_clock() {
    assert_eq!(ClockTime::new(13, 0, 0).unwrap().render(), "13:00:00");
    assert_eq!(ClockTime::new(12, 0, 0).unwrap().render(), "12:00:00");
}

#[test]
fn render_is_eight_characters_for_every_time() {
    for hour in 0..24 {
        for minute in [0, 1, 9, 10, 37, 59] {
            for second in [0, 8, 10, 59] {
                let text = ClockTime::new(hour, minute, second).unwrap().render();
                assert_eq!(text, format!("{:02}:{:02}:{:02}", hour, minute, second));
            }
        }
    }
}

#[test]
fn period_follows_the_hour() {
    assert_eq!(ClockTime::new(12, 59, 59).unwrap().period(), Period::Sun);
    assert_eq!(ClockTime::new(13, 0, 0).unwrap().period(), Period::Sunset);
    assert_eq!(ClockTime::new(17, 59, 59).unwrap().period(), Period::Sunset);
    assert_eq!(ClockTime::new(18, 0, 0).unwrap().period(), Period::NightCity);
    assert_eq!(ClockTime::new(4, 59, 59).unwrap().period(), Period::Moon);
    assert_eq!(ClockTime::new(5, 0, 0).unwrap().period(), Period::Sun);
}

#[test]
fn half_past_two_in_the_afternoon_is_sunset() {
    assert_eq!(ClockTime::new(14, 30, 0).unwrap().format(), "14:30:00 \u{1f307} ");
}

#[test]
fn format_at_the_boundary_hours() {
    assert_eq!(ClockTime::new(12, 0, 0).unwrap().format(), "12:00:00 \u{2600}\u{fe0f} ");
    assert_eq!(ClockTime::new(17, 0, 0).unwrap().format(), "17:00:00 \u{1f307} ");
    assert_eq!(ClockTime::new(21, 59, 59).unwrap().format(), "21:59:59 \u{1f303} ");
    assert_eq!(ClockTime::new(22, 0, 0).unwrap().format(), "22:00:00 \u{1f319} ");
    assert_eq!(ClockTime::new(0, 0, 0).unwrap().format(), "00:00:00 \u{1f319} ");
}

#[test]
fn render_agrees_with_chrono_for_every_time_of_day() {
    for hour in 0..24 {
        for minute in 0..60 {
            for second in 0..60 {
                let ours = ClockTime::new(hour, minute, second).unwrap().render();
                let theirs = chrono::NaiveTime::from_hms_opt(hour, minute, second)
                    .unwrap()
                    .format("%H:%M:%S")
                    .to_string();
                assert_eq!(ours, theirs);
            }
        }
    }
}
