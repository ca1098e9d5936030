//! The choices for a test of a fixed number of words.

use vstd::prelude::*;

verus! {

/// A language.
#[derive(Clone, Copy, Debug, PartialEq, Eq, Structural)]
pub enum Language {
    /// German.
    De,
    /// English.
    En,
}

/// A kind of test: where the passage comes from.
#[derive(Clone, Copy, Debug, PartialEq, Eq, Structural)]
pub enum TestType {
    /// Words drawn from the dictionary.
    RandomWords,
    /// A quotation.
    Quotes,
}

/// The choices for a test of a fixed number of words.
#[derive(Clone, Copy, Debug, PartialEq, Eq, Structural)]
pub struct Options {
    /// The language of the interface.
    pub ui_language: Language,
    /// The language of the passage.
    pub test_language: Language,
    /// How many words the passage has.
    pub words_amount: i16,
    /// Where the passage comes from.
    pub test_type: TestType,
}

impl Options {
    /// The choices that a user starts with: German throughout, fifteen words
    /// drawn from the dictionary.
    pub fn new() -> (options: Options)
        ensures
            options == (Options {
                ui_language: Language::De,
                test_language: Language::De,
                words_amount: 15,
                test_type: TestType::RandomWords,
            }),
    {
        Options {
            ui_language: Language::De,
            test_language: Language::De,
            words_amount: 15,
            test_type: TestType::RandomWords,
        }
    }
}

} // verus!
