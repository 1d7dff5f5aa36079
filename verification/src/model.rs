//! The mathematical model of the search. A text is a sequence of characters,
//! a line is a text without a line feed, and a search result is a sequence of
//! lines.

use vstd::prelude::*;

verus! {

/// `needle` stands in `hay` at position `at`, character for character.
pub open spec fn occurs_at(needle: Seq<char>, hay: Seq<char>, at: int) -> bool {
    &&& 0 <= at
    &&& at + needle.len() <= hay.len()
    &&& hay.subrange(at, at + needle.len()) =~= needle
}

/// `needle` is a contiguous part of `hay`.
pub open spec fn occurs_in(needle: Seq<char>, hay: Seq<char>) -> bool {
    exists|at: int| occurs_at(needle, hay, at)
}

/// The position of the first line feed in `text`, or the length of `text`
/// where it holds none.
pub open spec fn first_line_feed(text: Seq<char>) -> nat
    decreases text.len(),
{
    if text.len() == 0 || text[0] == '\n' {
        0
    } else {
        1 + first_line_feed(text.drop_first())
    }
}

/// A line as it is handed out: a carriage return that stood directly before
/// the line feed belongs to the line ending and is dropped with it.
pub open spec fn without_carriage_return(line: Seq<char>) -> Seq<char> {
    if line.len() > 0 && line.last() == '\r' {
        line.drop_last()
    } else {
        line
    }
}

/// The lines of `text`. A line ends at a line feed, or at a carriage return
/// directly followed by one; the ending is not part of the line. What follows
/// the last line feed is a line of its own unless it is empty, and is kept
/// whole, a closing carriage return included.
pub open spec fn lines_of(text: Seq<char>) -> Seq<Seq<char>>
    decreases text.len(),
{
    let end = first_line_feed(text) as int;
    if text.len() == 0 {
        Seq::empty()
    } else if end >= text.len() {
        seq![text]
    } else {
        seq![without_carriage_return(text.take(end))] + lines_of(text.skip(end + 1))
    }
}

/// The lowercase mapping of one character: the characters that
/// `char::to_lowercase` yields for it.
pub uninterp spec fn char_lowercase(c: char) -> Seq<char>;

/// `text` with letter case folded away: each character replaced, in place,
/// by its lowercase mapping.
pub open spec fn folded(text: Seq<char>) -> Seq<char> {
    text.flat_map(|c: char| char_lowercase(c))
}

/// Whether `line` is a match for `query`: it contains the query as written,
/// or, where case does not count, the folded line contains the folded query.
pub open spec fn line_matches(query: Seq<char>, line: Seq<char>, case_sensitive: bool) -> bool {
    if case_sensitive {
        occurs_in(query, line)
    } else {
        occurs_in(folded(query), folded(line))
    }
}

/// [`line_matches`] for a fixed query and mode, as a predicate on lines.
pub open spec fn matcher(query: Seq<char>, case_sensitive: bool) -> spec_fn(Seq<char>) -> bool {
    |line: Seq<char>| line_matches(query, line, case_sensitive)
}

/// The result of a search: the lines of `contents` that match `query`, as
/// often and in the order in which `contents` holds them.
pub open spec fn matching_lines(
    query: Seq<char>,
    contents: Seq<char>,
    case_sensitive: bool,
) -> Seq<Seq<char>> {
    lines_of(contents).filter(matcher(query, case_sensitive))
}

} // verus!
