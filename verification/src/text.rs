//! The operations on text that the search is built from. Three of them are
//! calls into the standard library whose results are taken on trust; the rest
//! is proved from what is said of those three.

use vstd::prelude::*;
use crate::laws::{lemma_folded_concat, lemma_folded_single};
use crate::model::{char_lowercase, folded, lines_of, occurs_in};

verus! {

/// The lines of `contents`, each borrowed from it.
///
/// Not proved. The body calls `str::lines` and gathers what it yields, and
/// the contract takes the documentation of `str::lines` at its word: a line
/// ends at a line feed or at a carriage return followed by one, the ending is
/// left out, the last line needs no ending, and the empty text has no lines.
/// [`lines_of`] says the same of the characters of `contents`.
#[verifier::external_body]
pub(crate) fn lines<'a>(contents: &'a str) -> (found: Vec<&'a str>)
    ensures
        found.deep_view() == lines_of(contents@),
{
    contents.lines().collect()
}

/// Whether `needle` is a contiguous part of `hay`.
///
/// Not proved. The body calls `str::contains` with a string as the pattern,
/// which is documented to tell whether the pattern matches a sub-slice of
/// `hay`. On the characters of the two texts that is [`occurs_in`].
#[verifier::external_body]
pub(crate) fn contains(hay: &str, needle: &str) -> (found: bool)
    ensures
        found == occurs_in(needle@, hay@),
{
    hay.contains(needle)
}

/// The lowercase mapping of `c`, one character or more.
///
/// Not proved. The body calls `char::to_lowercase` and gathers what it
/// yields. The contract claims one thing only, that the characters depend on
/// `c` and on nothing else: [`char_lowercase`] is the name of that mapping,
/// and nothing is said of what it is for any given character.
#[verifier::external_body]
pub(crate) fn lowercase(c: char) -> (lower: String)
    ensures
        lower@ == char_lowercase(c),
{
    c.to_lowercase().collect()
}

/// `text` with letter case folded away, for comparison: each character is
/// replaced by its lowercase mapping, whatever stands around it.
pub fn fold_case(text: &str) -> (lower: String)
    ensures
        lower@ == folded(text@),
{
    broadcast use vstd::string::group_string_axioms;
    let mut lower = String::new();
    for c in it: text.chars()
        invariant
            it.seq() == text@,
            lower@ == folded(text@.take(it.index() as int)),
    {
        let piece = lowercase(c);
        lower.append(piece.as_str());
        proof {
            let seen = text@.take(it.index() as int);
            assert(text@.take(it.index() + 1) =~= seen + seq![c]);
            lemma_folded_concat(seen, seq![c]);
            lemma_folded_single(c);
        }
    }
    assert(text@.take(text@.len() as int) =~= text@);
    lower
}

} // verus!
