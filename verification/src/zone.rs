//! The time in a named time zone at an instant, as a line of text.
//!
//! Zone names are looked up by `chrono_tz` and instants are turned into local
//! times by `chrono`. Both are called through the two small trusted functions
//! at the top of this file; everything after them is verified against the
//! names `zone_named` and `zone_wall_clock` that stand for what those calls
//! return. The instant is the caller's to give: nothing here reads a clock.

use crate::clock::{clock_line, is_time_of_day, ClockTime};
use crate::failure::{shown, Failure};
use crate::text::{lemma_trimmed_idempotent, trim, trimmed};
use chrono::TimeZone;
use chrono::Timelike;
use chrono_tz::Tz;
use vstd::prelude::*;

verus! {

/// `chrono_tz::Tz`, one time zone of the IANA database. Nothing is known of a
/// value but its identity.
#[verifier::external_type_specification]
#[verifier::external_body]
pub struct ExTz(chrono_tz::Tz);

/// The zone that `chrono_tz` knows under a name, if it knows one: what
/// `<Tz as FromStr>::from_str` returns for the name, with its error dropped.
pub uninterp spec fn zone_named(name: Seq<char>) -> Option<Tz>;

/// The hour, minute and second that a clock in the zone shows at an instant,
/// given as seconds since the start of 1970 in UTC: what
/// `TimeZone::timestamp_opt` returns for the zone at that instant, read
/// through `Timelike`. `None` where `chrono` cannot express the instant.
pub uninterp spec fn zone_wall_clock(zone: Tz, unix_seconds: i64) -> Option<(u32, u32, u32)>;

/// The first instant that `chrono` expresses as a date and a time: the start
/// of the year -262143 in UTC, in seconds since the start of 1970.
pub const FIRST_UNIX_SECOND: i64 = -8_334_601_228_800;

/// The last instant that `chrono` expresses as a date and a time: the last
/// second of the year 262142 in UTC, in seconds since the start of 1970.
pub const LAST_UNIX_SECOND: i64 = 8_210_266_876_799;

/// Whether an instant, in seconds since the start of 1970 in UTC, can be
/// expressed as a date and a time.
pub open spec fn is_expressible(unix_seconds: i64) -> bool {
    FIRST_UNIX_SECOND <= unix_seconds <= LAST_UNIX_SECOND
}

/// Calls `<chrono_tz::Tz as FromStr>::from_str`, a lookup of the exact name
/// in a table that is fixed when `chrono_tz` is built. The contract claims
/// only that the outcome is a function of the name.
#[verifier::external_body]
fn parse_zone(name: &str) -> (zone: Option<Tz>)
    ensures
        zone == zone_named(name@),
{
    match name.parse::<Tz>() {
        Ok(zone) => Some(zone),
        Err(_) => None,
    }
}

/// Calls `chrono::TimeZone::timestamp_opt` on the zone with no nanoseconds
/// and reads the hour, minute and second of the local time it gives.
///
/// The contract claims three things. The outcome is a function of the zone
/// and the instant. There is a local time exactly for the instants from
/// `DateTime::MIN_UTC` to `DateTime::MAX_UTC`: `timestamp_opt` gives one where
/// `DateTime::from_timestamp` does, which refuses nothing but a date whose
/// year lies outside -262143 to 262142. And `Timelike` gives an hour from 0
/// to 23 and a minute and a second from 0 to 59.
#[verifier::external_body]
fn wall_clock_in(zone: Tz, unix_seconds: i64) -> (clock: Option<(u32, u32, u32)>)
    ensures
        clock == zone_wall_clock(zone, unix_seconds),
        clock is Some <==> is_expressible(unix_seconds),
        clock matches Some((hour, minute, second)) ==> hour < 24 && minute < 60 && second < 60,
{
    match zone.timestamp_opt(unix_seconds, 0) {
        chrono::LocalResult::Single(at) => Some((at.hour(), at.minute(), at.second())),
        chrono::LocalResult::Ambiguous(_, _) => None,
        chrono::LocalResult::None => None,
    }
}

/// The line for a local time, or the failure where there is none.
pub open spec fn line_of(local: Option<(u32, u32, u32)>) -> Result<Seq<char>, Failure> {
    match local {
        Some((hour, minute, second)) => if is_time_of_day(
            hour as int,
            minute as int,
            second as int,
        ) {
            Ok(clock_line(hour as int, minute as int, second as int))
        } else {
            Err(Failure::TimeOutOfRange)
        },
        None => Err(Failure::TimeOutOfRange),
    }
}

/// What is shown at an instant for the zone that a lookup gave: the line for
/// the local time in the zone, and `InvalidTimezone` where the lookup found no
/// zone.
pub open spec fn line_of_zone(zone: Option<Tz>, unix_seconds: i64) -> Result<Seq<char>, Failure> {
    match zone {
        Some(found) => line_of(zone_wall_clock(found, unix_seconds)),
        None => Err(Failure::InvalidTimezone),
    }
}

/// What is shown for a zone given by name at an instant: the name is trimmed
/// and looked up, and the local time at the instant is rendered.
pub open spec fn formatted_at(zone: Seq<char>, unix_seconds: i64) -> Result<Seq<char>, Failure> {
    line_of_zone(zone_named(trimmed(zone)), unix_seconds)
}

/// Renders the local time that a zone gave for an instant. Where the zone
/// gave none, or gave numbers that are no time of day, the instant is out of
/// range.
pub fn line_for(local: Option<(u32, u32, u32)>) -> (line: Result<String, Failure>)
    ensures
        shown(line) == line_of(local),
{
    match local {
        Some((hour, minute, second)) => match ClockTime::new(hour, minute, second) {
            Some(clock) => Ok(clock.format()),
            None => Err(Failure::TimeOutOfRange),
        },
        None => Err(Failure::TimeOutOfRange),
    }
}

/// Formats the time that a clock shows at the given instant in the zone that
/// a lookup gave.
///
/// Fails with `InvalidTimezone` exactly when the lookup found no zone, and
/// with `TimeOutOfRange` exactly when it found one and the instant cannot be
/// expressed as a date and a time. In every other case there is a line.
pub fn format_time_in(zone: Option<Tz>, unix_seconds: i64) -> (line: Result<String, Failure>)
    ensures
        shown(line) == line_of_zone(zone, unix_seconds),
        line is Ok <==> zone is Some && is_expressible(unix_seconds),
        line == Err::<String, Failure>(Failure::InvalidTimezone) <==> zone is None,
        line == Err::<String, Failure>(Failure::TimeOutOfRange) <==> zone is Some
            && !is_expressible(unix_seconds),
{
    match zone {
        Some(found) => line_for(wall_clock_in(found, unix_seconds)),
        None => Err(Failure::InvalidTimezone),
    }
}

/// Formats the time that a clock in the named zone shows at the instant
/// `now`, given in seconds since the start of 1970 in UTC.
///
/// White space around the name is ignored. Fails with `InvalidTimezone`
/// exactly when the trimmed name is not a zone's name, and with
/// `TimeOutOfRange` exactly when it is one and the instant cannot be
/// expressed as a date and a time. For the name of a zone there is a line
/// at every instant that can be expressed.
pub fn format_time(zone: &str, now: i64) -> (line: Result<String, Failure>)
    ensures
        shown(line) == formatted_at(zone@, now),
        line is Ok <==> zone_named(trimmed(zone@)) is Some && is_expressible(now),
        line == Err::<String, Failure>(Failure::InvalidTimezone) <==> zone_named(trimmed(zone@))
            is None,
        line == Err::<String, Failure>(Failure::TimeOutOfRange) <==> zone_named(trimmed(zone@))
            is Some && !is_expressible(now),
{
    format_time_in(parse_zone(trim(zone)), now)
}

/// White space around the name of a zone changes nothing: a name and its
/// trimmed form are shown alike at every instant.
pub proof fn lemma_formatted_ignores_white_space(zone: Seq<char>, unix_seconds: i64)
    ensures
        formatted_at(trimmed(zone), unix_seconds) == formatted_at(zone, unix_seconds),
{
    lemma_trimmed_idempotent(zone);
}

/// Whether a name is invalid does not depend on the instant.
pub proof fn lemma_invalid_zone_at_any_time(zone: Seq<char>, unix_seconds: i64)
    ensures
        formatted_at(zone, unix_seconds) == Err::<Seq<char>, Failure>(Failure::InvalidTimezone)
            <==> zone_named(trimmed(zone)) is None,
{
}

/// A line that is shown is a time of day in `HH:MM:SS` form followed by a
/// blank and the marker of the hour's period.
pub proof fn lemma_formatted_shape(zone: Seq<char>, unix_seconds: i64)
    ensures
        formatted_at(zone, unix_seconds) matches Ok(line) ==> exists|
            hour: int,
            minute: int,
            second: int,
        |
            is_time_of_day(hour, minute, second) && line == #[trigger] clock_line(
                hour,
                minute,
                second,
            ),
{
    if let Ok(line) = formatted_at(zone, unix_seconds) {
        let found = zone_named(trimmed(zone))->Some_0;
        let (hour, minute, second) = zone_wall_clock(found, unix_seconds)->Some_0;
        assert(line == clock_line(hour as int, minute as int, second as int));
    }
}

} // verus!
