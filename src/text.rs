//! Word wrapping of the title and name text.
use vstd::prelude::*;
use vstd::utf8::is_ascii_chars;

verus! {

/// The number of characters after which text wraps.
pub const WRAPPED_WIDTH: usize = 15;

/// The lines that greedy wrapping at `width` columns makes of `text`.
pub uninterp spec fn wrapped_lines(text: Seq<char>, width: nat) -> Seq<Seq<char>>;

pub open spec fn lines_view(lines: Seq<String>) -> Seq<Seq<char>> {
    lines.map_values(|l: String| l@)
}

/// `s` without the spaces at its end.
pub open spec fn trim_end_spaces(s: Seq<char>) -> Seq<char>
    decreases s.len(),
{
    if s.len() > 0 && s.last() == ' ' {
        trim_end_spaces(s.drop_last())
    } else {
        s
    }
}

/// One line of ASCII text, with fewer characters than `width`.
pub open spec fn fits_on_one_line(text: Seq<char>, width: nat) -> bool {
    &&& is_ascii_chars(text)
    &&& !text.contains('\n')
    &&& text.len() < width
}

/// Relies on `textwrap::wrap`, with words split at ASCII spaces only, never
/// broken or hyphenated, and lines filled greedily. Its result depends on the
/// text and the width alone; a single line shorter (in bytes) than the width
/// comes back whole, without its trailing spaces.
#[verifier::external_body]
pub(crate) fn wrap_text(text: &str, width: usize) -> (r: Vec<String>)
    ensures
        lines_view(r@) == wrapped_lines(text@, width as nat),
        fits_on_one_line(text@, width as nat) ==> lines_view(r@) == seq![trim_end_spaces(text@)],
{
    let options = textwrap::Options::new(width)
        .break_words(false)
        .word_separator(textwrap::WordSeparator::AsciiSpace)
        .word_splitter(textwrap::WordSplitter::NoHyphenation)
        .wrap_algorithm(textwrap::WrapAlgorithm::FirstFit);
    textwrap::wrap(text, options).into_iter().map(|l| l.into_owned()).collect()
}

} // verus!
