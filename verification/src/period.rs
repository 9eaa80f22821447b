//! The part of the day that an hour belongs to, and the symbol shown for it.

use vstd::prelude::*;

verus! {

/// The four parts of the day that a wall-clock hour can fall into.
#[derive(Clone, Copy, Debug, PartialEq, Eq, Structural)]
pub enum Period {
    /// Morning up to and including noon.
    Sun,
    /// Afternoon.
    Sunset,
    /// Evening.
    NightCity,
    /// Late night and the small hours.
    Moon,
}

/// The period of an hour of the day.
///
/// The three ranges are closed intervals that overlap at 12 and at 17. They
/// are tried in this order and the first one that holds decides, so 12 is
/// `Sun` and 17 is `Sunset`.
pub open spec fn period_of(hour: int) -> Period {
    if 5 <= hour <= 12 {
        Period::Sun
    } else if 12 <= hour <= 17 {
        Period::Sunset
    } else if 17 <= hour <= 21 {
        Period::NightCity
    } else {
        Period::Moon
    }
}

impl Period {
    /// The text shown for a period: one symbol and a trailing blank.
    pub open spec fn marker_text(self) -> Seq<char> {
        match self {
            Period::Sun => seq!['\u{2600}', '\u{fe0f}', ' '],
            Period::Sunset => seq!['\u{1f307}', ' '],
            Period::NightCity => seq!['\u{1f303}', ' '],
            Period::Moon => seq!['\u{1f319}', ' '],
        }
    }

    /// Classifies an hour of the day.
    pub fn of_hour(hour: u32) -> (period: Period)
        ensures
            period == period_of(hour as int),
    {
        if hour >= 5 && hour <= 12 {
            Period::Sun
        } else if hour >= 12 && hour <= 17 {
            Period::Sunset
        } else if hour >= 17 && hour <= 21 {
            Period::NightCity
        } else {
            Period::Moon
        }
    }

    /// The marker of this period as text.
    pub fn marker(&self) -> (text: &'static str)
        ensures
            text@ == self.marker_text(),
    {
        match self {
            Period::Sun => {
                proof {
                    reveal_strlit("\u{2600}\u{fe0f} ");
                }
                "\u{2600}\u{fe0f} "
            },
            Period::Sunset => {
                proof {
                    reveal_strlit("\u{1f307} ");
                }
                "\u{1f307} "
            },
            Period::NightCity => {
                proof {
                    reveal_strlit("\u{1f303} ");
                }
                "\u{1f303} "
            },
            Period::Moon => {
                proof {
                    reveal_strlit("\u{1f319} ");
                }
                "\u{1f319} "
            },
        }
    }
}

/// Every hour of the day has exactly the period that the ordered ranges
/// give it: 5 to 12 is `Sun`, 13 to 17 `Sunset`, 18 to 21 `NightCity`, and
/// 22, 23 and 0 to 4 are `Moon`.
pub proof fn lemma_period_partition(hour: int)
    requires
        0 <= hour < 24,
    ensures
        period_of(hour) == Period::Sun <==> 5 <= hour <= 12,
        period_of(hour) == Period::Sunset <==> 13 <= hour <= 17,
        period_of(hour) == Period::NightCity <==> 18 <= hour <= 21,
        period_of(hour) == Period::Moon <==> hour <= 4 || 22 <= hour,
{
}

} // verus!
