//! A passage of a chosen number of German words, begun with a capital.

use vstd::prelude::*;
use crate::app_options::Language;
use crate::text::chars_of;
use crate::text_gen::choose_multiple;
use crate::text_gen::dictionary;
use crate::text_gen::dictionary_words;
use crate::text_gen::is_selection;
use crate::text_gen::join_words;
use crate::text_gen::joined;

verus! {

/// The upper-case form of `c`, which may take more than one character.
pub uninterp spec fn upper_case(c: char) -> Seq<char>;

/// `char::to_uppercase` gives the upper-case form of a character, as Unicode
/// defines it without regard to language: one character or several.
#[verifier::external_body]
fn to_uppercase(c: char) -> (upper: String)
    ensures
        upper@ == upper_case(c),
{
    c.to_uppercase().to_string()
}

/// `sentence` with `first` in place of its first character; an empty
/// sentence stays empty.
pub open spec fn with_first(sentence: Seq<char>, first: Seq<char>) -> Seq<char> {
    if sentence.len() == 0 {
        sentence
    } else {
        first + sentence.subrange(1, sentence.len() as int)
    }
}

/// `sentence` with its first character in upper case.
pub open spec fn capitalized(sentence: Seq<char>) -> Seq<char> {
    if sentence.len() == 0 {
        sentence
    } else {
        with_first(sentence, upper_case(sentence[0]))
    }
}

/// `sentence` with `first` in place of its first character.
pub fn replace_first(sentence: &str, first: &str) -> (replaced: String)
    ensures
        replaced@ == with_first(sentence@, first@),
{
    let chars = chars_of(sentence);
    if chars.len() == 0 {
        return String::new();
    }
    let mut replaced = first.to_owned();
    let mut i: usize = 1;
    while i < chars.len()
        invariant
            1 <= i <= chars.len(),
            replaced@ == first@ + chars@.subrange(1, i as int),
        decreases chars.len() - i,
    {
        replaced.push(chars[i]);
        assert(chars@.subrange(1, i + 1) == chars@.subrange(1, i as int).push(chars@[i as int]));
        i += 1;
    }
    replaced
}

/// `sentence` with its first character in upper case.
pub fn capitalize_first(sentence: &str) -> (capital: String)
    ensures
        capital@ == capitalized(sentence@),
{
    if sentence.unicode_len() == 0 {
        return String::new();
    }
    let upper = to_uppercase(sentence.get_char(0));
    replace_first(sentence, upper.as_str())
}

/// A sentence of `words_amount` German words drawn at random from the
/// dictionary, joined by single spaces, with a capital at its start.
pub fn get_random_sentence(words_amount: usize) -> (sentence: String)
    ensures
        exists|picked: Seq<Seq<char>>|
            is_selection(picked, dictionary(Language::De), words_amount as nat) && sentence@
                == capitalized(joined(picked)),
{
    let word_list = dictionary_words(Language::De);
    let selected_words = choose_multiple(&word_list, words_amount);
    let sentence = join_words(&selected_words);
    capitalize_first(sentence.as_str())
}

} // verus!
