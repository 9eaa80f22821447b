use zoneclock::period::Period;

#[test]
fn hour_twelve_is_sun() {
    assert_eq!(Period::of_hour(12), Period::Sun);
}

#[test]
fn hour_seventeen_is_sunset() {
    assert_eq!(Period::of_hour(17), Period::Sunset);
}

#[test]
fn sun_runs_from_five_to_twelve() {
    for hour in 5..=12 {
        assert_eq!(Period::of_hour(hour), Period::Sun, "hour {}", hour);
    }
}

#[test]
fn sunset_runs_from_thirteen_to_seventeen() {
    for hour in 13..=17 {
        assert_eq!(Period::of_hour(hour), Period::Sunset, "hour {}", hour);
    }
}

#[test]
fn night_city_runs_from_eighteen_to_twenty_one() {
    for hour in 18..=21 {
        assert_eq!(Period::of_hour(hour), Period::NightCity, "hour {}", hour);
    }
}

#[test]
fn moon_covers_late_night_and_small_hours() {
    for hour in [22, 23, 0, 1, 2, 3, 4] {
        assert_eq!(Period::of_hour(hour), Period::Moon, "hour {}", hour);
    }
}

#[test]
fn hours_past_the_day_are_moon() {
    assert_eq!(Period::of_hour(24), Period::Moon);
    assert_eq!(Period::of_hour(u32::MAX), Period::Moon);
}

#[test]
fn every_hour_has_one_of_four_periods() {
    let mut counts = [0usize; 4];
    for hour in 0..24 {
        match Period::of_hour(hour) {
            Period::Sun => counts[0] += 1,
            Period::Sunset => counts[1] += 1,
            Period::NightCity => counts[2] += 1,
            Period::Moon => counts[3] += 1,
        }
    }
    assert_eq!(counts, [8, 5, 4, 7]);
}

#[test]
fn markers_are_a_symbol_and_a_blank() {
    assert_eq!(Period::Sun.marker(), "\u{2600}\u{fe0f} ");
    assert_eq!(Period::Sunset.marker(), "\u{1f307} ");
    assert_eq!(Period::NightCity.marker(), "\u{1f303} ");
    assert_eq!(Period::Moon.marker(), "\u{1f319} ");
}
