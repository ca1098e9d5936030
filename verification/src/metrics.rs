//! The two measures of a typing test, kept exactly.
//!
//! Both are fractions. They are stored as the two whole numbers that make
//! them up, so that nothing is lost to rounding before a caller decides how
//! to show them.

use vstd::prelude::*;

verus! {

/// Nanoseconds in one second.
pub const NANOS_PER_SEC: u64 = 1_000_000_000;

/// One word is five characters and a minute is sixty seconds, so a speed of
/// one character per nanosecond is this many words per minute.
pub const WORDS_PER_MINUTE_SCALE: u64 = 12_000_000_000;

/// The share of keystrokes that matched their target character.
#[derive(Clone, Copy, Debug, PartialEq, Eq, Structural)]
pub struct Accuracy {
    /// Keystrokes that matched.
    pub correct: u64,
    /// All keystrokes.
    pub typed: u64,
}

impl Accuracy {
    /// No more keystrokes matched than were made.
    pub open spec fn wf(self) -> bool {
        self.correct <= self.typed
    }

    /// Whether the accuracy is a full hundred percent: every keystroke
    /// matched, or none was made.
    pub open spec fn is_perfect(self) -> bool {
        self.correct == self.typed
    }

    /// The accuracy in percent, rounded down: a hundred where nothing was
    /// typed, else `correct / typed * 100`.
    pub open spec fn percent_floor(self) -> nat {
        if self.typed == 0 {
            100
        } else {
            (self.correct * 100 / (self.typed as int)) as nat
        }
    }

    /// The accuracy in percent, rounded down to a whole number.
    pub fn percent(&self) -> (p: u8)
        requires
            self.wf(),
        ensures
            p == self.percent_floor(),
            p <= 100,
            p == 100 <==> self.is_perfect(),
    {
        if self.typed == 0 {
            100
        } else {
            let scaled: u128 = self.correct as u128 * 100;
            let typed: u128 = self.typed as u128;
            let p: u128 = scaled / typed;
            proof {
                lemma_share_of_hundred(self.correct as int, self.typed as int);
            }
            p as u8
        }
    }
}

/// A typing speed: `chars` characters typed in `nanos` nanoseconds.
#[derive(Clone, Copy, Debug, PartialEq, Eq, Structural)]
pub struct Speed {
    /// Characters counted.
    pub chars: u64,
    /// Time taken, in nanoseconds.
    pub nanos: u64,
}

impl Speed {
    /// Words per minute, rounded down: `(chars / 5) * 60 / seconds`, with
    /// the seconds taken exactly, and zero where no time has passed.
    pub open spec fn wpm_floor(self) -> nat {
        if self.nanos == 0 {
            0
        } else {
            (self.chars * WORDS_PER_MINUTE_SCALE / (self.nanos as int)) as nat
        }
    }

    /// Words per minute, rounded down to a whole number.
    pub fn words_per_minute(&self) -> (w: u128)
        ensures
            w == self.wpm_floor(),
    {
        if self.nanos == 0 {
            0
        } else {
            assert(self.chars * WORDS_PER_MINUTE_SCALE <= u64::MAX * 12_000_000_000) by (nonlinear_arith)
                requires
                    self.chars <= u64::MAX,
                    WORDS_PER_MINUTE_SCALE == 12_000_000_000,
            ;
            let scaled: u128 = self.chars as u128 * WORDS_PER_MINUTE_SCALE as u128;
            scaled / self.nanos as u128
        }
    }
}

/// Of `part` out of `whole`, the percentage rounded down is at most a
/// hundred, and is a hundred only for the whole.
pub proof fn lemma_share_of_hundred(part: int, whole: int)
    requires
        0 <= part <= whole,
        0 < whole,
    ensures
        0 <= part * 100 / whole <= 100,
        part * 100 / whole == 100 <==> part == whole,
{
    assert(0 <= part * 100 / whole <= 100 && (part * 100 / whole == 100 <==> part == whole))
        by (nonlinear_arith)
        requires
            0 <= part <= whole,
            0 < whole,
    ;
}

} // verus!
