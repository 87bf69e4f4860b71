//! Riddles and the parsing of a generated two-line reply into one.
use vstd::prelude::*;

verus! {

/// A riddle and its answer, produced fresh for each cycle.
#[derive(Debug, PartialEq, Eq)]
pub struct Riddle {
    pub text: String,
    pub answer: String,
}

/// Why a riddle could not be generated.
#[derive(Debug, PartialEq, Eq)]
pub enum GenerationError {
    /// The request did not reach the service, or its reply could not be read.
    Transport(String),
    /// The service answered with a status outside 200..=299.
    Status(u16),
    /// The reply held no choice.
    NoChoices,
    /// The first choice did not hold two non-empty lines.
    Unparsable,
}

/// Whitespace as `char::is_whitespace` defines it: the Unicode `White_Space` property.
pub open spec fn is_space(c: char) -> bool {
    ('\u{9}' <= c && c <= '\u{d}') || c == ' ' || c == '\u{85}' || c == '\u{a0}'
        || c == '\u{1680}' || ('\u{2000}' <= c && c <= '\u{200a}') || c == '\u{2028}'
        || c == '\u{2029}' || c == '\u{202f}' || c == '\u{205f}' || c == '\u{3000}'
}

fn is_space_char(c: char) -> (r: bool)
    ensures
        r == is_space(c),
{
    ('\u{9}' <= c && c <= '\u{d}') || c == ' ' || c == '\u{85}' || c == '\u{a0}'
        || c == '\u{1680}' || ('\u{2000}' <= c && c <= '\u{200a}') || c == '\u{2028}'
        || c == '\u{2029}' || c == '\u{202f}' || c == '\u{205f}' || c == '\u{3000}'
}

/// The index of the first `'\n'` at or after `from`, or the length of `s` if there is none.
pub open spec fn line_end(s: Seq<char>, from: int) -> int
    decreases s.len() - from,
{
    if from < 0 || from >= s.len() {
        s.len() as int
    } else if s[from] == '\n' {
        from
    } else {
        line_end(s, from + 1)
    }
}

/// The first index in `from..to` that is not whitespace, or `to`.
pub open spec fn skip_spaces(s: Seq<char>, from: int, to: int) -> int
    decreases to - from,
{
    if from < to && is_space(s[from]) {
        skip_spaces(s, from + 1, to)
    } else {
        from
    }
}

/// One past the last index in `from..to` that is not whitespace, or `from`.
pub open spec fn drop_spaces(s: Seq<char>, from: int, to: int) -> int
    decreases to - from,
{
    if from < to && is_space(s[to - 1]) {
        drop_spaces(s, from, to - 1)
    } else {
        to
    }
}

/// The characters of `s` in `from..to`, without leading and trailing whitespace.
pub open spec fn trimmed(s: Seq<char>, from: int, to: int) -> Seq<char> {
    let a = skip_spaces(s, from, to);
    s.subrange(a, drop_spaces(s, a, to))
}

/// Whether `content` has a second line (`str::lines` ignores one final line ending).
pub open spec fn has_two_lines(content: Seq<char>) -> bool {
    line_end(content, 0) + 1 < content.len()
}

/// The first line of `content`, trimmed.
pub open spec fn first_line(content: Seq<char>) -> Seq<char> {
    trimmed(content, 0, line_end(content, 0))
}

/// The second line of `content`, trimmed.
pub open spec fn second_line(content: Seq<char>) -> Seq<char> {
    let start = line_end(content, 0) + 1;
    trimmed(content, start, line_end(content, start))
}

/// Whether `content` reads as a riddle: two lines, neither blank.
pub open spec fn is_riddle_reply(content: Seq<char>) -> bool {
    has_two_lines(content) && first_line(content).len() > 0 && second_line(content).len() > 0
}

fn find_line_end(s: &str, len: usize, from: usize) -> (r: usize)
    requires
        len == s@.len(),
        from <= len,
    ensures
        r as int == line_end(s@, from as int),
        from <= r <= len,
{
    let mut i: usize = from;
    while i < len
        invariant
            len == s@.len(),
            from <= i <= len,
            line_end(s@, i as int) == line_end(s@, from as int),
        decreases len - i,
    {
        if s.get_char(i) == '\n' {
            return i;
        }
        i = i + 1;
    }
    i
}

fn trim_range(s: &str, from: usize, to: usize) -> (r: String)
    requires
        from <= to <= s@.len(),
    ensures
        r@ == trimmed(s@, from as int, to as int),
{
    let mut a: usize = from;
    while a < to && is_space_char(s.get_char(a))
        invariant
            from <= a <= to <= s@.len(),
            skip_spaces(s@, a as int, to as int) == skip_spaces(s@, from as int, to as int),
        decreases to - a,
    {
        a = a + 1;
    }
    let mut b: usize = to;
    while a < b && is_space_char(s.get_char(b - 1))
        invariant
            a <= b <= to <= s@.len(),
            a == skip_spaces(s@, from as int, to as int),
            drop_spaces(s@, a as int, b as int) == drop_spaces(s@, a as int, to as int),
        decreases b - a,
    {
        b = b - 1;
    }
    s.substring_char(a, b).to_owned()
}

/// Reads a riddle from generated text: the first line is the riddle, the
/// second its answer, both trimmed of whitespace; further lines are ignored.
pub fn parse_riddle(content: &str) -> (r: Result<Riddle, GenerationError>)
    ensures
        is_riddle_reply(content@) <==> r is Ok,
        r matches Ok(riddle) ==> riddle.text@ == first_line(content@)
            && riddle.answer@ == second_line(content@),
        r matches Err(e) ==> e == GenerationError::Unparsable,
{
    let len = content.unicode_len();
    let first_end = find_line_end(content, len, 0);
    if first_end >= len || first_end + 1 >= len {
        return Err(GenerationError::Unparsable);
    }
    let second_end = find_line_end(content, len, first_end + 1);
    let text = trim_range(content, 0, first_end);
    let answer = trim_range(content, first_end + 1, second_end);
    if text.as_str().unicode_len() == 0 || answer.as_str().unicode_len() == 0 {
        return Err(GenerationError::Unparsable);
    }
    Ok(Riddle { text, answer })
}

} // verus!
