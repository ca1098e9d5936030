//! What the user can choose: the language of the passage and of the
//! interface, the kind of test, and two switches.
//!
//! Each choice is an enum whose variants stand in a fixed order. `next` and
//! `previous` walk that order and wrap around at its ends.

use vstd::prelude::*;

verus! {

/// A language.
#[derive(Clone, Copy, Debug, PartialEq, Eq, Structural)]
pub enum Language {
    /// English.
    En,
    /// German.
    De,
}

impl Language {
    /// How many languages there are.
    pub const COUNT: usize = 2;

    /// The place of the language in the order of its variants.
    pub open spec fn ordinal(self) -> nat {
        match self {
            Language::En => 0,
            Language::De => 1,
        }
    }

    /// The name of the language, as shown to the user.
    pub open spec fn label(self) -> Seq<char> {
        match self {
            Language::En => "English"@,
            Language::De => "German"@,
        }
    }

    /// The place of the language in the order of its variants.
    pub fn index(self) -> (i: usize)
        ensures
            i == self.ordinal(),
            i < Language::COUNT,
    {
        match self {
            Language::En => 0,
            Language::De => 1,
        }
    }

    /// The language at place `index`, if there is one.
    pub fn from_repr(index: usize) -> (r: Option<Language>)
        ensures
            r is Some <==> index < Language::COUNT,
            r matches Some(language) ==> language.ordinal() == index,
    {
        match index {
            0 => Some(Language::En),
            1 => Some(Language::De),
            _ => None,
        }
    }

    /// Every language, in order.
    pub fn all() -> (all: Vec<Language>)
        ensures
            all@.len() == Language::COUNT,
            forall|i: int| 0 <= i < all@.len() ==> (#[trigger] all@[i]).ordinal() == i,
    {
        vec![Language::En, Language::De]
    }

    /// The language before this one; the last one before the first.
    pub fn previous(self) -> (r: Language)
        ensures
            r.ordinal() == (self.ordinal() + Language::COUNT - 1) % (Language::COUNT as int),
            r == self.previous_in_order(),
            r.next_in_order() == self,
    {
        match self {
            Language::En => Language::De,
            Language::De => Language::En,
        }
    }

    /// The language after this one; the first one after the last.
    pub fn next(self) -> (r: Language)
        ensures
            r.ordinal() == (self.ordinal() + 1) % (Language::COUNT as nat),
            r == self.next_in_order(),
            r.previous_in_order() == self,
    {
        match self {
            Language::En => Language::De,
            Language::De => Language::En,
        }
    }

    /// The language after this one, wrapping around.
    pub open spec fn next_in_order(self) -> Language {
        match self {
            Language::En => Language::De,
            Language::De => Language::En,
        }
    }

    /// The language before this one, wrapping around.
    pub open spec fn previous_in_order(self) -> Language {
        match self {
            Language::En => Language::De,
            Language::De => Language::En,
        }
    }

    /// The name of the language, as shown to the user.
    pub fn to_string(&self) -> (s: String)
        ensures
            s@ == self.label(),
    {
        match self {
            Language::En => "English".to_owned(),
            Language::De => "German".to_owned(),
        }
    }
}

impl Default for Language {
    fn default() -> (r: Language)
        ensures
            r == Language::En,
    {
        Language::En
    }
}

/// A kind of test: where the passage comes from.
#[derive(Clone, Copy, Debug, PartialEq, Eq, Structural)]
pub enum TestType {
    /// Words drawn from the whole dictionary.
    RandomWords,
    /// Words drawn from the thousand most common ones.
    RandomWords1K,
    /// Words drawn from the ten thousand most common ones.
    RandomWords10K,
    /// A quotation.
    Quotes,
    /// A joke.
    Jokes,
}

impl TestType {
    /// How many kinds of test there are.
    pub const COUNT: usize = 5;

    /// The place of the kind in the order of its variants.
    pub open spec fn ordinal(self) -> nat {
        match self {
            TestType::RandomWords => 0,
            TestType::RandomWords1K => 1,
            TestType::RandomWords10K => 2,
            TestType::Quotes => 3,
            TestType::Jokes => 4,
        }
    }

    /// The name of the kind, as shown to the user.
    pub open spec fn label(self) -> Seq<char> {
        match self {
            TestType::RandomWords => "Random Words (Chaos)"@,
            TestType::RandomWords1K => "Random Words (Top 1.000)"@,
            TestType::RandomWords10K => "Random Words (Top 10.000)"@,
            TestType::Quotes => "Quotes"@,
            TestType::Jokes => "Jokes"@,
        }
    }

    /// The kind after this one, wrapping around.
    pub open spec fn next_in_order(self) -> TestType {
        match self {
            TestType::RandomWords => TestType::RandomWords1K,
            TestType::RandomWords1K => TestType::RandomWords10K,
            TestType::RandomWords10K => TestType::Quotes,
            TestType::Quotes => TestType::Jokes,
            TestType::Jokes => TestType::RandomWords,
        }
    }

    /// The kind before this one, wrapping around.
    pub open spec fn previous_in_order(self) -> TestType {
        match self {
            TestType::RandomWords => TestType::Jokes,
            TestType::RandomWords1K => TestType::RandomWords,
            TestType::RandomWords10K => TestType::RandomWords1K,
            TestType::Quotes => TestType::RandomWords10K,
            TestType::Jokes => TestType::Quotes,
        }
    }

    /// The place of the kind in the order of its variants.
    pub fn index(self) -> (i: usize)
        ensures
            i == self.ordinal(),
            i < TestType::COUNT,
    {
        match self {
            TestType::RandomWords => 0,
            TestType::RandomWords1K => 1,
            TestType::RandomWords10K => 2,
            TestType::Quotes => 3,
            TestType::Jokes => 4,
        }
    }

    /// The kind at place `index`, if there is one.
    pub fn from_repr(index: usize) -> (r: Option<TestType>)
        ensures
            r is Some <==> index < TestType::COUNT,
            r matches Some(kind) ==> kind.ordinal() == index,
    {
        match index {
            0 => Some(TestType::RandomWords),
            1 => Some(TestType::RandomWords1K),
            2 => Some(TestType::RandomWords10K),
            3 => Some(TestType::Quotes),
            4 => Some(TestType::Jokes),
            _ => None,
        }
    }

    /// Every kind of test, in order.
    pub fn all() -> (all: Vec<TestType>)
        ensures
            all@.len() == TestType::COUNT,
            forall|i: int| 0 <= i < all@.len() ==> (#[trigger] all@[i]).ordinal() == i,
    {
        vec![
            TestType::RandomWords,
            TestType::RandomWords1K,
            TestType::RandomWords10K,
            TestType::Quotes,
            TestType::Jokes,
        ]
    }

    /// The kind before this one; the last one before the first.
    pub fn previous(self) -> (r: TestType)
        ensures
            r.ordinal() == (self.ordinal() + TestType::COUNT - 1) % (TestType::COUNT as int),
            r == self.previous_in_order(),
            r.next_in_order() == self,
    {
        match self {
            TestType::RandomWords => TestType::Jokes,
            TestType::RandomWords1K => TestType::RandomWords,
            TestType::RandomWords10K => TestType::RandomWords1K,
            TestType::Quotes => TestType::RandomWords10K,
            TestType::Jokes => TestType::Quotes,
        }
    }

    /// The kind after this one; the first one after the last.
    pub fn next(self) -> (r: TestType)
        ensures
            r.ordinal() == (self.ordinal() + 1) % (TestType::COUNT as nat),
            r == self.next_in_order(),
            r.previous_in_order() == self,
    {
        match self {
            TestType::RandomWords => TestType::RandomWords1K,
            TestType::RandomWords1K => TestType::RandomWords10K,
            TestType::RandomWords10K => TestType::Quotes,
            TestType::Quotes => TestType::Jokes,
            TestType::Jokes => TestType::RandomWords,
        }
    }

    /// The name of the kind, as shown to the user.
    pub fn to_string(&self) -> (s: String)
        ensures
            s@ == self.label(),
    {
        match self {
            TestType::RandomWords => "Random Words (Chaos)".to_owned(),
            TestType::RandomWords1K => "Random Words (Top 1.000)".to_owned(),
            TestType::RandomWords10K => "Random Words (Top 10.000)".to_owned(),
            TestType::Quotes => "Quotes".to_owned(),
            TestType::Jokes => "Jokes".to_owned(),
        }
    }
}

impl Default for TestType {
    fn default() -> (r: TestType)
        ensures
            r == TestType::RandomWords1K,
    {
        TestType::RandomWords1K
    }
}

/// The choices of one user.
#[derive(Clone, Copy, Debug, PartialEq, Eq, Structural)]
pub struct AppOptions {
    /// The language of the interface.
    pub ui_language: Language,
    /// The language of the passage.
    pub test_language: Language,
    /// Where the passage comes from.
    pub test_type: TestType,
    /// Whether the test runs against a time limit.
    pub time_race_enabled: bool,
    /// Whether the hard mode is on.
    pub hardcore_enabled: bool,
}

impl AppOptions {
    /// The choices that a user starts with: English throughout, words from
    /// the thousand most common ones, both switches off.
    pub fn new() -> (options: AppOptions)
        ensures
            options == (AppOptions {
                ui_language: Language::En,
                test_language: Language::En,
                test_type: TestType::RandomWords1K,
                time_race_enabled: false,
                hardcore_enabled: false,
            }),
    {
        AppOptions {
            test_language: Language::En,
            test_type: TestType::RandomWords1K,
            time_race_enabled: false,
            hardcore_enabled: false,
            ui_language: Language::En,
        }
    }
}

} // verus!
