//! Making the passage of a test.
//!
//! A passage is thirty words drawn at random, from the dictionary or from a
//! word list that the host has read from a file, put together with single
//! spaces. German passages are spelled without umlauts, so that they can be
//! typed on any keyboard.

use rand::seq::SliceRandom;
use vstd::prelude::*;
use crate::app_options::Language;
use crate::app_options::TestType;
use crate::text::chars_of;

verus! {

/// How many words a passage has.
pub const TEXT_LEN: usize = 30;

/// The directory of the word lists.
pub const BASE_PATH: &'static str = "util";

/// Which of the word lists of a language to take.
#[derive(Clone, Copy, Debug, PartialEq, Eq, Structural)]
pub enum WordSetSize {
    /// The whole list.
    Base,
    /// The thousand most common words.
    OneK,
    /// The ten thousand most common words.
    TenK,
}

impl WordSetSize {
    /// What the name of the list's file has after the language.
    pub open spec fn suffix(self) -> Seq<char> {
        match self {
            WordSetSize::Base => ""@,
            WordSetSize::OneK => "_1k"@,
            WordSetSize::TenK => "_10k"@,
        }
    }

    /// What the name of the list's file has after the language.
    pub fn to_suffix(&self) -> (s: &'static str)
        ensures
            s@ == self.suffix(),
    {
        match self {
            WordSetSize::Base => "",
            WordSetSize::OneK => "_1k",
            WordSetSize::TenK => "_10k",
        }
    }
}

/// Where the word lists are kept.
pub struct WordSetConfig {
    base_path: String,
}

impl WordSetConfig {
    /// The directory of the word lists.
    pub closed spec fn base(&self) -> Seq<char> {
        self.base_path@
    }

    /// The name of the file that holds the list of `size` for `language`:
    /// the language, the suffix of the size, and `.json`.
    pub open spec fn file_name_of(language: Seq<char>, size: WordSetSize) -> Seq<char> {
        language + size.suffix() + ".json"@
    }

    /// Word lists kept in the directory `base_path`.
    pub fn new(base_path: &str) -> (config: WordSetConfig)
        ensures
            config.base() == base_path@,
    {
        WordSetConfig { base_path: base_path.to_owned() }
    }

    /// The directory of the word lists.
    pub fn base_path(&self) -> (path: &str)
        ensures
            path@ == self.base(),
    {
        self.base_path.as_str()
    }

    /// The name of the file that holds the list of `size` for `language`.
    pub fn file_name(&self, language: &str, size: WordSetSize) -> (name: String)
        ensures
            name@ == WordSetConfig::file_name_of(language@, size),
    {
        let mut name = language.to_owned();
        name.append(size.to_suffix());
        name.append(".json");
        name
    }
}

/// Whether `c` is an umlaut or the sharp s.
pub open spec fn is_umlaut(c: char) -> bool {
    c == 'ä' || c == 'ö' || c == 'ü' || c == 'Ä' || c == 'Ö' || c == 'Ü' || c == 'ß'
}

/// How a character of a German passage is spelled without umlauts.
pub open spec fn umlaut_spelling(c: char) -> Seq<char> {
    if c == 'ä' {
        seq!['a', 'e']
    } else if c == 'ö' {
        seq!['o', 'e']
    } else if c == 'ü' {
        seq!['u', 'e']
    } else if c == 'Ä' {
        seq!['A', 'e']
    } else if c == 'Ö' {
        seq!['O', 'e']
    } else if c == 'Ü' {
        seq!['U', 'e']
    } else if c == 'ß' {
        seq!['s', 's']
    } else {
        seq![c]
    }
}

/// `text` with every umlaut and sharp s spelled out.
pub open spec fn without_umlauts(text: Seq<char>) -> Seq<char>
    decreases text.len(),
{
    if text.len() == 0 {
        Seq::empty()
    } else {
        without_umlauts(text.drop_last()) + umlaut_spelling(text.last())
    }
}

/// The words of `words` in order, with one space between each two.
pub open spec fn joined(words: Seq<Seq<char>>) -> Seq<char>
    decreases words.len(),
{
    if words.len() == 0 {
        Seq::empty()
    } else if words.len() == 1 {
        words[0]
    } else {
        joined(words.drop_last()) + seq![' '] + words.last()
    }
}

/// The passage made of `words` for `language`: the words joined by single
/// spaces, and for German spelled without umlauts.
pub open spec fn sentence_of(language: Language, words: Seq<Seq<char>>) -> Seq<char> {
    if language == Language::De {
        without_umlauts(joined(words))
    } else {
        joined(words)
    }
}

/// Whether `picked` is a choice of `amount` of the `words`, or of all of
/// them where they are fewer: each picked word stands at a place of its own
/// in `words`.
pub open spec fn is_selection(picked: Seq<Seq<char>>, words: Seq<Seq<char>>, amount: nat) -> bool {
    &&& picked.len() == if amount <= words.len() {
        amount
    } else {
        words.len()
    }
    &&& exists|places: Seq<int>|
        {
            &&& places.len() == picked.len()
            &&& places.no_duplicates()
            &&& forall|k: int|
                0 <= k < picked.len() ==> 0 <= #[trigger] places[k] < words.len() && picked[k]
                    == words[places[k]]
        }
}

/// The words of the dictionary for `language`, in the dictionary's order.
pub uninterp spec fn dictionary(language: Language) -> Seq<Seq<char>>;

/// `random_word::all` gives every word that the dictionary holds for a
/// language; the list is the same at every call.
#[verifier::external_body]
pub(crate) fn dictionary_words(language: Language) -> (words: Vec<String>)
    ensures
        words.deep_view() == dictionary(language),
{
    let lang = match language {
        Language::De => random_word::Lang::De,
        Language::En => random_word::Lang::En,
    };
    random_word::all(lang).iter().map(|word| word.to_string()).collect()
}

/// `SliceRandom::choose_multiple` with the thread's generator picks `amount`
/// elements of the slice at random, or all of them where they are fewer,
/// none twice, in random order.
#[verifier::external_body]
pub(crate) fn choose_multiple(words: &Vec<String>, amount: usize) -> (picked: Vec<String>)
    ensures
        is_selection(picked.deep_view(), words.deep_view(), amount as nat),
{
    words.choose_multiple(&mut rand::thread_rng(), amount).cloned().collect()
}

/// `sentence` with every umlaut and sharp s spelled out.
pub fn replace_umlauts(sentence: String) -> (plain: String)
    ensures
        plain@ == without_umlauts(sentence@),
{
    let chars = chars_of(sentence.as_str());
    let mut plain = String::new();
    let mut i: usize = 0;
    while i < chars.len()
        invariant
            i <= chars.len(),
            chars@ == sentence@,
            plain@ == without_umlauts(chars@.take(i as int)),
        decreases chars.len() - i,
    {
        let c = chars[i];
        proof {
            assert(chars@.take(i + 1).drop_last() == chars@.take(i as int));
            assert(chars@.take(i + 1).last() == c);
            reveal_strlit("ae");
            reveal_strlit("oe");
            reveal_strlit("ue");
            reveal_strlit("Ae");
            reveal_strlit("Oe");
            reveal_strlit("Ue");
            reveal_strlit("ss");
        }
        if c == 'ä' {
            plain.append("ae");
        } else if c == 'ö' {
            plain.append("oe");
        } else if c == 'ü' {
            plain.append("ue");
        } else if c == 'Ä' {
            plain.append("Ae");
        } else if c == 'Ö' {
            plain.append("Oe");
        } else if c == 'Ü' {
            plain.append("Ue");
        } else if c == 'ß' {
            plain.append("ss");
        } else {
            plain.push(c);
        }
        assert(plain@ == without_umlauts(chars@.take(i as int)) + umlaut_spelling(c));
        i += 1;
    }
    assert(chars@.take(chars.len() as int) == chars@);
    plain
}

/// The words of `words` in order, with one space between each two.
pub fn join_words(words: &Vec<String>) -> (sentence: String)
    ensures
        sentence@ == joined(words.deep_view()),
{
    let mut sentence = String::new();
    let mut i: usize = 0;
    while i < words.len()
        invariant
            i <= words.len(),
            sentence@ == joined(words.deep_view().take(i as int)),
        decreases words.len() - i,
    {
        proof {
            let upto = words.deep_view().take(i + 1);
            assert(upto.drop_last() == words.deep_view().take(i as int));
            assert(upto.last() == words[i as int]@);
        }
        if i > 0 {
            sentence.push(' ');
        }
        sentence.append(words[i].as_str());
        i += 1;
    }
    assert(words.deep_view().take(words.len() as int) == words.deep_view());
    sentence
}

/// The passage made of `words` for `language`.
pub fn compose_sentence(language: Language, words: &Vec<String>) -> (sentence: String)
    ensures
        sentence@ == sentence_of(language, words.deep_view()),
{
    let sentence = join_words(words);
    match language {
        Language::De => replace_umlauts(sentence),
        Language::En => sentence,
    }
}

/// Where the words of a passage are drawn from.
pub enum WordSource {
    /// The dictionary of the language.
    Dictionary,
    /// A list of the host's own.
    CustomList(Vec<String>),
}

impl WordSource {
    /// The words to draw from, for a passage in `language`.
    pub open spec fn words(self, language: Language) -> Seq<Seq<char>> {
        match self {
            WordSource::Dictionary => dictionary(language),
            WordSource::CustomList(words) => words.deep_view(),
        }
    }
}

/// A passage for `language` of [`TEXT_LEN`] words drawn at random from
/// `source`, or of all its words where they are fewer.
pub fn get_random_sentence(language: Language, source: WordSource) -> (sentence: String)
    ensures
        exists|picked: Seq<Seq<char>>|
            is_selection(picked, source.words(language), TEXT_LEN as nat) && sentence@
                == sentence_of(language, picked),
{
    let selected_words = match source {
        WordSource::Dictionary => {
            let word_list = dictionary_words(language);
            choose_multiple(&word_list, TEXT_LEN)
        },
        WordSource::CustomList(words) => choose_multiple(&words, TEXT_LEN),
    };
    compose_sentence(language, &selected_words)
}

/// The name of `language` in the names of the word files.
pub fn language_name(language: Language) -> (name: &'static str)
    ensures
        name@ == match language {
            Language::De => "german"@,
            Language::En => "english"@,
        },
{
    match language {
        Language::De => "german",
        Language::En => "english",
    }
}

/// The word list that a test of kind `test_type` draws from, if it draws
/// from one.
pub fn word_list_for(test_type: TestType) -> (size: Option<WordSetSize>)
    ensures
        size == match test_type {
            TestType::RandomWords1K => Some(WordSetSize::OneK),
            TestType::RandomWords10K => Some(WordSetSize::TenK),
            _ => None::<WordSetSize>,
        },
{
    match test_type {
        TestType::RandomWords1K => Some(WordSetSize::OneK),
        TestType::RandomWords10K => Some(WordSetSize::TenK),
        _ => None,
    }
}

/// What a passage says in place of a test that cannot be made.
pub open spec fn placeholder(test_type: TestType, loaded: Result<Vec<String>, String>) -> Seq<
    char,
> {
    match test_type {
        TestType::Quotes => "Quotes feature not implemented yet"@,
        TestType::Jokes => "Jokes feature not implemented yet"@,
        _ => match loaded {
            Err(e) => "Error loading words: "@ + e@,
            Ok(_) => Seq::empty(),
        },
    }
}

/// Whether a test of kind `test_type` can be made: it draws from the
/// dictionary, or from a word list that was loaded.
pub open spec fn draws_words(test_type: TestType, loaded: Result<Vec<String>, String>) -> bool {
    test_type == TestType::RandomWords || ((test_type == TestType::RandomWords1K || test_type
        == TestType::RandomWords10K) && loaded is Ok)
}

/// The words that a test of kind `test_type` draws from.
pub open spec fn word_pool(
    language: Language,
    test_type: TestType,
    loaded: Result<Vec<String>, String>,
) -> Seq<Seq<char>> {
    match (test_type, loaded) {
        (TestType::RandomWords, _) => dictionary(language),
        (_, Ok(words)) => words.deep_view(),
        _ => Seq::empty(),
    }
}

/// The passage for a test in `language` of kind `test_type`.
///
/// `loaded` is what came of reading the word list named by
/// [`word_list_for`]; it plays no part where the kind of test draws from no
/// list. Random words come from the dictionary or from the loaded list. A
/// list that could not be loaded, and a kind of test that is yet to be
/// made, give a sentence that says so.
pub fn get_sentence(lan: Language, test_type: TestType, loaded: Result<Vec<String>, String>) -> (sentence:
    String)
    ensures
        !draws_words(test_type, loaded) ==> sentence@ == placeholder(test_type, loaded),
        draws_words(test_type, loaded) ==> exists|picked: Seq<Seq<char>>|
            is_selection(picked, word_pool(lan, test_type, loaded), TEXT_LEN as nat) && sentence@
                == sentence_of(lan, picked),
{
    match test_type {
        TestType::RandomWords => get_random_sentence(lan, WordSource::Dictionary),
        TestType::RandomWords1K | TestType::RandomWords10K => {
            match loaded {
                Ok(words) => get_random_sentence(lan, WordSource::CustomList(words)),
                Err(e) => {
                    let mut message = "Error loading words: ".to_owned();
                    message.append(e.as_str());
                    message
                },
            }
        },
        TestType::Quotes => "Quotes feature not implemented yet".to_owned(),
        TestType::Jokes => "Jokes feature not implemented yet".to_owned(),
    }
}

/// `sentence`, or in place of an empty one a sentence that says that there
/// are no words.
pub open spec fn or_fallback(sentence: Seq<char>) -> Seq<char> {
    if sentence.len() == 0 {
        "No words could be loaded"@
    } else {
        sentence
    }
}

/// The passage for a test in `language` of kind `test_type`, never empty.
///
/// It is the sentence that [`get_sentence`] makes of `loaded`. Where that
/// sentence comes out empty, as from an empty word list, the passage says
/// that there are no words.
pub fn get_passage(lan: Language, test_type: TestType, loaded: Result<Vec<String>, String>) -> (passage:
    String)
    ensures
        passage@.len() > 0,
        !draws_words(test_type, loaded) ==> passage@ == or_fallback(
            placeholder(test_type, loaded),
        ),
        draws_words(test_type, loaded) ==> exists|picked: Seq<Seq<char>>|
            is_selection(picked, word_pool(lan, test_type, loaded), TEXT_LEN as nat) && passage@
                == or_fallback(sentence_of(lan, picked)),
{
    let sentence = get_sentence(lan, test_type, loaded);
    if sentence.as_str().unicode_len() == 0 {
        proof {
            reveal_strlit("No words could be loaded");
        }
        "No words could be loaded".to_owned()
    } else {
        sentence
    }
}

/// A text that was spelled out holds no umlaut and no sharp s.
pub proof fn lemma_without_umlauts_has_none(text: Seq<char>)
    ensures
        forall|i: int|
            0 <= i < without_umlauts(text).len() ==> !is_umlaut(
                #[trigger] without_umlauts(text)[i],
            ),
    decreases text.len(),
{
    if text.len() > 0 {
        lemma_without_umlauts_has_none(text.drop_last());
        let before = without_umlauts(text.drop_last());
        let spelled = umlaut_spelling(text.last());
        assert forall|i: int| 0 <= i < without_umlauts(text).len() implies !is_umlaut(
            #[trigger] without_umlauts(text)[i],
        ) by {
            if i < before.len() {
                assert(without_umlauts(text)[i] == before[i]);
            } else {
                assert(without_umlauts(text)[i] == spelled[i - before.len()]);
            }
        }
    }
}

/// A text that holds no umlaut and no sharp s is spelled out as it is.
pub proof fn lemma_plain_text_stays(text: Seq<char>)
    requires
        forall|i: int| 0 <= i < text.len() ==> !is_umlaut(#[trigger] text[i]),
    ensures
        without_umlauts(text) == text,
    decreases text.len(),
{
    if text.len() > 0 {
        lemma_plain_text_stays(text.drop_last());
        assert(text.drop_last().push(text.last()) == text);
    }
}

} // verus!
