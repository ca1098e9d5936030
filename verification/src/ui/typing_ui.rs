//! The numbers of the typing screen and of the summary.

use vstd::prelude::*;
use crate::metrics::Accuracy;
use crate::metrics::Speed;
use crate::metrics::NANOS_PER_SEC;
use crate::type_test::SessionView;
use crate::type_test::TypingTest;

verus! {

/// The time that a test against the clock may take, in nanoseconds.
pub const TIME_LIMIT: u64 = 30_000_000_000;

/// The colour of the gauge that shows the time left.
#[derive(Clone, Copy, Debug, PartialEq, Eq, Structural)]
pub enum GaugeColor {
    /// A fifth of the time or less is left.
    Red,
    /// Half of the time or less is left.
    Yellow,
    /// More than half of the time is left.
    Green,
}

/// The time left of the limit after `elapsed` nanoseconds; none once the
/// limit is passed.
pub open spec fn time_left(elapsed: u64) -> u64 {
    if elapsed < TIME_LIMIT {
        (TIME_LIMIT - elapsed) as u64
    } else {
        0
    }
}

/// The time left of the limit after `elapsed` nanoseconds.
pub fn remaining_time(elapsed: u64) -> (left: u64)
    ensures
        left == time_left(elapsed),
        left <= TIME_LIMIT,
{
    if elapsed < TIME_LIMIT {
        TIME_LIMIT - elapsed
    } else {
        0
    }
}

/// The time left as a share of the limit, in percent, rounded down.
pub fn time_progress(elapsed: u64) -> (percent: u16)
    ensures
        percent == time_left(elapsed) * 100 / (TIME_LIMIT as int),
        percent <= 100,
{
    let left = remaining_time(elapsed);
    (left as u128 * 100 / TIME_LIMIT as u128) as u16
}

/// The colour for a gauge that stands at `time_progress` percent: red up to
/// twenty, yellow up to fifty, green above.
pub fn time_color(time_progress: u16) -> (color: GaugeColor)
    ensures
        color == if time_progress <= 20 {
            GaugeColor::Red
        } else if time_progress <= 50 {
            GaugeColor::Yellow
        } else {
            GaugeColor::Green
        },
{
    if time_progress <= 20 {
        GaugeColor::Red
    } else if time_progress <= 50 {
        GaugeColor::Yellow
    } else {
        GaugeColor::Green
    }
}

/// The figures of a finished test.
#[derive(Clone, Copy, Debug, PartialEq, Eq, Structural)]
pub struct TestStats {
    /// The share of keystrokes that matched.
    pub accuracy: Accuracy,
    /// The minutes of the time taken, as a clock shows them.
    pub minutes: u64,
    /// The seconds of the time taken, as a clock shows them.
    pub seconds: u64,
    /// The speed over the characters of correctly typed words.
    pub wpm: Speed,
    /// The speed over all keystrokes.
    pub wpm_raw: Speed,
    /// The keystrokes that did not match.
    pub mistakes: u64,
    /// The characters of the passage.
    pub total_characters: usize,
}

/// The figures of the session `s` at time `now`.
pub open spec fn stats_of(s: SessionView, now: u64) -> TestStats {
    TestStats {
        accuracy: s.accuracy(),
        minutes: ((s.elapsed(now) / NANOS_PER_SEC) / 60) % 60,
        seconds: (s.elapsed(now) / NANOS_PER_SEC) % 60,
        wpm: s.wpm(now),
        wpm_raw: s.wpm_raw(now),
        mistakes: s.mistakes as u64,
        total_characters: s.target.len() as usize,
    }
}

/// The figures that the summary shows for `typing_test` at time `now`, or
/// nothing where the passage was not typed to its end.
pub fn create_test_stats(typing_test: &TypingTest, now: u64) -> (stats: Option<TestStats>)
    requires
        typing_test.wf(),
    ensures
        stats == if typing_test@.finished {
            Some(stats_of(typing_test@, now))
        } else {
            None
        },
{
    if typing_test.text_finished() {
        let elapsed = typing_test.elapsed_at(now) / NANOS_PER_SEC;
        Some(
            TestStats {
                accuracy: typing_test.accuracy(),
                minutes: (elapsed / 60) % 60,
                seconds: elapsed % 60,
                wpm: typing_test.get_wpm_at(now),
                wpm_raw: typing_test.get_wpm_raw_at(now),
                mistakes: typing_test.mistakes(),
                total_characters: typing_test.target_chars().len(),
            },
        )
    } else {
        None
    }
}

} // verus!
