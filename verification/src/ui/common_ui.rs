//! The passage as it is shown: wrapped into lines, each character with the
//! style that its state calls for.

use vstd::prelude::*;
use crate::text::chars_of;
use crate::type_test::CharState;
use crate::type_test::TypingTest;

verus! {

/// How a character of the passage is shown.
#[derive(Clone, Copy, Debug, PartialEq, Eq, Structural)]
pub enum CharStyle {
    /// Not typed yet: dark gray.
    Untyped,
    /// Typed and matched: green.
    Correct,
    /// Typed and not matched: red.
    Incorrect,
    /// Under the cursor: black on yellow, whatever its state.
    Cursor,
}

/// One character of a line with its style.
#[derive(Clone, Copy, Debug, PartialEq, Eq, Structural)]
pub struct StyledChar {
    /// The character.
    pub ch: char,
    /// How it is shown.
    pub style: CharStyle,
}

impl StyledChar {
    /// The character `ch` shown in `style`.
    pub fn new(ch: char, style: CharStyle) -> (styled: StyledChar)
        ensures
            styled == (StyledChar { ch, style }),
    {
        StyledChar { ch, style }
    }
}

/// The lines that `text` is wrapped into at `width` columns, breaking at
/// ASCII spaces only and never inside a word.
pub uninterp spec fn wrapped_lines(text: Seq<char>, width: nat) -> Seq<Seq<char>>;

/// Wraps `text` into lines of at most `width` columns.
///
/// `textwrap::wrap` does the wrapping, with words separated by ASCII spaces,
/// no hyphenation and no breaking of words that are too long. What it
/// returns depends on the text and the width alone.
#[verifier::external_body]
pub fn wrap_text(text: &str, width: usize) -> (lines: Vec<String>)
    ensures
        lines.deep_view() == wrapped_lines(text@, width as nat),
{
    let options = textwrap::Options::new(width)
        .word_separator(textwrap::WordSeparator::AsciiSpace)
        .word_splitter(textwrap::WordSplitter::NoHyphenation)
        .break_words(false);
    textwrap::wrap(text, options).into_iter().map(|s| s.into_owned()).collect()
}

/// The position in the passage of the first character of line `i`, each
/// line before it being followed by one separating space.
pub open spec fn line_start(lines: Seq<Seq<char>>, i: int) -> int
    decreases i,
{
    if i <= 0 {
        0
    } else {
        line_start(lines, i - 1) + lines[i - 1].len() + 1
    }
}

/// The style of the character at position `pos` of the passage.
pub open spec fn style_at(states: Seq<CharState>, cursor: int, pos: int) -> CharStyle {
    if pos == cursor {
        CharStyle::Cursor
    } else {
        match states[pos] {
            CharState::Untyped => CharStyle::Untyped,
            CharState::Correct => CharStyle::Correct,
            CharState::Incorrect => CharStyle::Incorrect,
        }
    }
}

/// The style of the space that stands for a line break at position `pos`.
pub open spec fn separator_style(cursor: int, pos: int) -> CharStyle {
    if pos == cursor {
        CharStyle::Cursor
    } else {
        CharStyle::Untyped
    }
}

/// How many characters line `i` is shown with: its own, and after every
/// line but the last one space for the break.
pub open spec fn shown_len(lines: Seq<Seq<char>>, i: int) -> nat {
    if i < lines.len() - 1 {
        lines[i].len() + 1
    } else {
        lines[i].len()
    }
}

/// What is shown at place `k` of line `i`: the character of the line with
/// the style of its position, or behind the line the space for the break.
pub open spec fn shown_char(
    lines: Seq<Seq<char>>,
    states: Seq<CharState>,
    cursor: int,
    i: int,
    k: int,
) -> StyledChar {
    let pos = line_start(lines, i) + k;
    if 0 <= k < lines[i].len() {
        StyledChar { ch: lines[i][k], style: style_at(states, cursor, pos) }
    } else {
        StyledChar { ch: ' ', style: separator_style(cursor, pos) }
    }
}

/// Line `i` as it is shown.
pub open spec fn styled_line(
    lines: Seq<Seq<char>>,
    states: Seq<CharState>,
    cursor: int,
    i: int,
) -> Seq<StyledChar> {
    Seq::new(shown_len(lines, i), |k: int| shown_char(lines, states, cursor, i, k))
}

/// Whether every character of the lines has a state: none stands at a
/// position at or past `states`.
pub open spec fn fits(lines: Seq<Seq<char>>, states: nat) -> bool {
    forall|i: int|
        0 <= i < lines.len() && lines[i].len() > 0 ==> #[trigger] line_start(lines, i)
            + lines[i].len() <= states
}

/// The position after the last line is one that `usize` can hold.
pub open spec fn countable(lines: Seq<Seq<char>>) -> bool {
    line_start(lines, lines.len() as int) <= usize::MAX
}

/// The start of a line is not before the start of an earlier one.
pub proof fn lemma_line_start_grows(lines: Seq<Seq<char>>, i: int, j: int)
    requires
        0 <= i <= j,
    ensures
        line_start(lines, i) <= line_start(lines, j),
        i < j ==> line_start(lines, i) + lines[i].len() + 1 <= line_start(lines, j),
    decreases j - i,
{
    if i < j {
        lemma_line_start_grows(lines, i, j - 1);
    }
}

/// The characters of `line`, the first of which stands at position `start`
/// of the passage, each with the style of its position.
fn style_line(line: &Vec<char>, states: &Vec<CharState>, current_index: usize, start: usize) -> (spans:
    Vec<StyledChar>)
    requires
        line@.len() > 0 ==> start + line@.len() <= states@.len(),
    ensures
        spans@.len() == line@.len(),
        forall|k: int|
            0 <= k < line@.len() ==> #[trigger] spans@[k] == (StyledChar {
                ch: line@[k],
                style: style_at(states@, current_index as int, start + k),
            }),
{
    let mut spans: Vec<StyledChar> = Vec::new();
    let count = states.len();
    let mut k: usize = 0;
    while k < line.len()
        invariant
            k <= line.len(),
            count == states@.len(),
            line@.len() > 0 ==> start + line@.len() <= count,
            spans@.len() == k,
            forall|j: int|
                0 <= j < k ==> #[trigger] spans@[j] == (StyledChar {
                    ch: line@[j],
                    style: style_at(states@, current_index as int, start + j),
                }),
        decreases line.len() - k,
    {
        let char_index = start + k;
        let style = if char_index == current_index {
            CharStyle::Cursor
        } else {
            match states[char_index] {
                CharState::Untyped => CharStyle::Untyped,
                CharState::Correct => CharStyle::Correct,
                CharState::Incorrect => CharStyle::Incorrect,
            }
        };
        spans.push(StyledChar::new(line[k], style));
        k += 1;
    }
    spans
}

/// The lines of the passage as they are shown.
///
/// `states` holds the state of each position of the passage, and
/// `current_index` is the cursor. Every character of the lines must have a
/// state.
pub fn create_colored_text(
    wrapped_text: &Vec<String>,
    states: &Vec<CharState>,
    current_index: usize,
) -> (colored_text: Vec<Vec<StyledChar>>)
    requires
        fits(wrapped_text.deep_view(), states@.len()),
        countable(wrapped_text.deep_view()),
    ensures
        colored_text@.len() == wrapped_text@.len(),
        forall|i: int|
            0 <= i < colored_text@.len() ==> (#[trigger] colored_text@[i])@ == styled_line(
                wrapped_text.deep_view(),
                states@,
                current_index as int,
                i,
            ),
{
    let ghost lines = wrapped_text.deep_view();
    let mut colored_text: Vec<Vec<StyledChar>> = Vec::new();
    let mut char_index: usize = 0;
    let mut line_index: usize = 0;
    while line_index < wrapped_text.len()
        invariant
            lines == wrapped_text.deep_view(),
            fits(lines, states@.len()),
            countable(lines),
            line_index <= wrapped_text.len(),
            line_index < wrapped_text.len() ==> char_index == line_start(lines, line_index as int),
            colored_text@.len() == line_index,
            forall|i: int|
                0 <= i < line_index ==> (#[trigger] colored_text@[i])@ == styled_line(
                    lines,
                    states@,
                    current_index as int,
                    i,
                ),
        decreases wrapped_text.len() - line_index,
    {
        let line = chars_of(wrapped_text[line_index].as_str());
        assert(line@ == lines[line_index as int]);
        proof {
            lemma_line_start_grows(lines, line_index as int, lines.len() as int);
            assert(line@.len() > 0 ==> line_start(lines, line_index as int) + line@.len()
                <= states@.len());
        }
        let mut spans = style_line(&line, states, current_index, char_index);
        char_index += line.len();
        if line_index < wrapped_text.len() - 1 {
            let space_style = if char_index == current_index {
                CharStyle::Cursor
            } else {
                CharStyle::Untyped
            };
            spans.push(StyledChar::new(' ', space_style));
            proof {
                lemma_line_start_grows(lines, line_index as int + 1, lines.len() as int);
            }
            char_index += 1;
        }
        assert(spans@ =~= styled_line(lines, states@, current_index as int, line_index as int));
        colored_text.push(spans);
        line_index += 1;
    }
    colored_text
}

/// Whether the lines fit `states` states and can be counted.
pub fn lines_fit(wrapped_text: &Vec<String>, states: usize) -> (ok: bool)
    ensures
        ok == (fits(wrapped_text.deep_view(), states as nat) && countable(
            wrapped_text.deep_view(),
        )),
{
    let ghost lines = wrapped_text.deep_view();
    let mut start: usize = 0;
    let mut ok = true;
    let mut i: usize = 0;
    while i < wrapped_text.len()
        invariant
            lines == wrapped_text.deep_view(),
            i <= wrapped_text.len(),
            start == line_start(lines, i as int),
            ok == forall|j: int|
                0 <= j < i && lines[j].len() > 0 ==> #[trigger] line_start(lines, j)
                    + lines[j].len() <= states,
        decreases wrapped_text.len() - i,
    {
        let len = wrapped_text[i].as_str().unicode_len();
        assert(len == lines[i as int].len());
        proof {
            lemma_line_start_grows(lines, i as int + 1, lines.len() as int);
        }
        if len >= usize::MAX - start {
            return false;
        }
        if len > 0 && start + len > states {
            ok = false;
        }
        start = start + len + 1;
        i += 1;
    }
    ok
}

/// The passage of `test` wrapped at `width` columns, as it is shown, or
/// nothing where the wrapped lines hold a character that the passage has
/// no position for.
pub fn colored_target_text(test: &TypingTest, width: usize) -> (colored_text: Option<
    Vec<Vec<StyledChar>>,
>)
    requires
        test.wf(),
    ensures
        ({
            let lines = wrapped_lines(test@.target, width as nat);
            &&& colored_text is Some <==> fits(lines, test@.target.len()) && countable(lines)
            &&& colored_text matches Some(shown) ==> {
                &&& shown@.len() == lines.len()
                &&& forall|i: int|
                    0 <= i < shown@.len() ==> (#[trigger] shown@[i])@ == styled_line(
                        lines,
                        test@.states(),
                        test@.index() as int,
                        i,
                    )
            }
        }),
{
    let text = test.target_text();
    let wrapped_text = wrap_text(text.as_str(), width);
    let states = test.per_character_state();
    if lines_fit(&wrapped_text, states.len()) {
        Some(create_colored_text(&wrapped_text, states, test.index()))
    } else {
        None
    }
}

} // verus!
