//! What holds of every search, proved of the model.

use vstd::prelude::*;
use crate::model::{
    char_lowercase, first_line_feed, folded, line_matches, lines_of, matcher, matching_lines,
    occurs_at, occurs_in, without_carriage_return,
};

verus! {

/// Folding goes through concatenation: the parts are folded one by one.
pub proof fn lemma_folded_concat(left: Seq<char>, right: Seq<char>)
    ensures
        folded(left + right) == folded(left) + folded(right),
{
    let lower = |c: char| char_lowercase(c);
    assert((left + right).map_values(lower) =~= left.map_values(lower) + right.map_values(lower));
    vstd::seq_lib::lemma_flatten_concat(left.map_values(lower), right.map_values(lower));
}

/// Folding a text of one character gives that character's lowercase mapping.
pub proof fn lemma_folded_single(c: char)
    ensures
        folded(seq![c]) == char_lowercase(c),
{
    let lower = |c: char| char_lowercase(c);
    assert(seq![c].map_values(lower) =~= seq![char_lowercase(c)]);
    seq![char_lowercase(c)].lemma_flatten_one_element();
}

/// A line that contains the query as written also contains it once case is
/// folded away, whatever the lowercase mapping of single characters is.
pub proof fn lemma_exact_match_is_folded_match(query: Seq<char>, line: Seq<char>)
    requires
        occurs_in(query, line),
    ensures
        occurs_in(folded(query), folded(line)),
{
    let at = choose|at: int| occurs_at(query, line, at);
    let before = line.take(at);
    let after = line.skip(at + query.len());
    assert(line =~= before + query + after);
    lemma_folded_concat(before + query, after);
    lemma_folded_concat(before, query);
    let start = folded(before).len() as int;
    assert(occurs_at(folded(query), folded(line), start));
}

/// The empty query matches every line, in both modes.
pub proof fn lemma_empty_query_matches(query: Seq<char>, line: Seq<char>, case_sensitive: bool)
    requires
        query.len() == 0,
    ensures
        line_matches(query, line, case_sensitive),
{
    assert(occurs_at(query, line, 0));
    assert(occurs_at(folded(query), folded(line), 0));
}

/// No line feed stands before the first one, which lies within the text
/// where there is one.
pub proof fn lemma_first_line_feed(text: Seq<char>)
    ensures
        first_line_feed(text) <= text.len(),
        forall|at: int| 0 <= at < first_line_feed(text) ==> text[at] != '\n',
        first_line_feed(text) < text.len() ==> text[first_line_feed(text) as int] == '\n',
    decreases text.len(),
{
    if text.len() > 0 && text[0] != '\n' {
        let rest = text.drop_first();
        lemma_first_line_feed(rest);
        assert forall|at: int| 0 <= at < first_line_feed(text) implies text[at] != '\n' by {
            if at > 0 {
                assert(text[at] == rest[at - 1]);
            }
        }
    }
}

/// Each line of a text is a contiguous part of it and holds no line feed.
pub proof fn lemma_lines_are_parts_of_the_text(text: Seq<char>)
    ensures
        forall|k: int|
            0 <= k < lines_of(text).len() ==> occurs_in(#[trigger] lines_of(text)[k], text),
        forall|k: int, at: int|
            0 <= k < lines_of(text).len() && 0 <= at < lines_of(text)[k].len() ==> (
            #[trigger] lines_of(text)[k][at]) != '\n',
    decreases text.len(),
{
    lemma_first_line_feed(text);
    let end = first_line_feed(text) as int;
    if text.len() == 0 {
    } else if end >= text.len() {
        assert(occurs_at(text, text, 0));
    } else {
        let first = without_carriage_return(text.take(end));
        let rest = text.skip(end + 1);
        lemma_lines_are_parts_of_the_text(rest);
        assert forall|k: int| 0 <= k < lines_of(text).len() implies occurs_in(
            #[trigger] lines_of(text)[k],
            text,
        ) by {
            let line = lines_of(text)[k];
            if k == 0 {
                assert(occurs_at(first, text, 0));
            } else {
                assert(line == lines_of(rest)[k - 1]);
                let at = choose|at: int| occurs_at(line, rest, at);
                assert(occurs_at(line, text, end + 1 + at));
            }
        }
        assert forall|k: int, at: int|
            0 <= k < lines_of(text).len() && 0 <= at < lines_of(text)[k].len() implies (
        #[trigger] lines_of(text)[k][at]) != '\n' by {
            if k > 0 {
                assert(lines_of(text)[k] == lines_of(rest)[k - 1]);
            }
        }
    }
}

/// The positions in `lines` of the lines that `wanted` accepts, rising.
pub open spec fn positions_of(lines: Seq<Seq<char>>, wanted: spec_fn(Seq<char>) -> bool) -> Seq<
    int,
>
    decreases lines.len(),
{
    if lines.len() == 0 {
        Seq::empty()
    } else {
        let before = positions_of(lines.drop_last(), wanted);
        if wanted(lines.last()) {
            before.push(lines.len() - 1)
        } else {
            before
        }
    }
}

/// Filtering keeps, in their order, exactly the lines at the positions that
/// [`positions_of`] lists; those positions rise, each holds a wanted line,
/// and no position of a wanted line is left out.
pub proof fn lemma_filter_by_positions(lines: Seq<Seq<char>>, wanted: spec_fn(Seq<char>) -> bool)
    ensures
        positions_of(lines, wanted).len() == lines.filter(wanted).len(),
        forall|k: int|
            0 <= k < positions_of(lines, wanted).len() ==> 0 <= #[trigger] positions_of(
                lines,
                wanted,
            )[k] < lines.len() && wanted(lines[positions_of(lines, wanted)[k]])
                && lines.filter(wanted)[k] == lines[positions_of(lines, wanted)[k]],
        forall|j: int, k: int|
            0 <= j < k < positions_of(lines, wanted).len() ==> positions_of(lines, wanted)[j]
                < positions_of(lines, wanted)[k],
        forall|at: int|
            0 <= at < lines.len() && wanted(#[trigger] lines[at]) ==> positions_of(
                lines,
                wanted,
            ).contains(at),
    decreases lines.len(),
{
    reveal(Seq::filter);
    if lines.len() > 0 {
        let front = lines.drop_last();
        lemma_filter_by_positions(front, wanted);
        let picks = positions_of(lines, wanted);
        let front_picks = positions_of(front, wanted);
        assert forall|at: int|
            0 <= at < lines.len() && wanted(#[trigger] lines[at]) implies picks.contains(at) by {
            if at == lines.len() - 1 {
                assert(picks[picks.len() - 1] == at);
            } else {
                assert(wanted(front[at]));
                let k = choose|k: int| 0 <= k < front_picks.len() && front_picks[k] == at;
                assert(picks[k] == at);
            }
        }
    }
}

/// Filtering by `narrow` and filtering first by `wide` and then by `narrow`
/// come to the same, where `narrow` accepts only what `wide` accepts.
pub proof fn lemma_filter_twice(
    lines: Seq<Seq<char>>,
    wide: spec_fn(Seq<char>) -> bool,
    narrow: spec_fn(Seq<char>) -> bool,
)
    requires
        forall|at: int| 0 <= at < lines.len() && narrow(#[trigger] lines[at]) ==> wide(lines[at]),
    ensures
        lines.filter(wide).filter(narrow) == lines.filter(narrow),
    decreases lines.len(),
{
    reveal(Seq::filter);
    if lines.len() > 0 {
        let front = lines.drop_last();
        lemma_filter_twice(front, wide, narrow);
        if wide(lines.last()) {
            front.filter(wide).lemma_filter_push(lines.last(), narrow);
        }
    }
}

/// Filtering changes nothing where every line is accepted.
pub proof fn lemma_filter_keeps_all(lines: Seq<Seq<char>>, wanted: spec_fn(Seq<char>) -> bool)
    requires
        forall|at: int| 0 <= at < lines.len() ==> wanted(#[trigger] lines[at]),
    ensures
        lines.filter(wanted) == lines,
    decreases lines.len(),
{
    reveal(Seq::filter);
    if lines.len() > 0 {
        lemma_filter_keeps_all(lines.drop_last(), wanted);
    }
}

/// `found` is `lines` cut down to its matches: `picks` names the positions
/// that were kept, one for each line found; they rise, each holds a line that
/// matches, and no position of a matching line is left out.
pub open spec fn keeps_the_matches(
    found: Seq<Seq<char>>,
    lines: Seq<Seq<char>>,
    picks: Seq<int>,
    query: Seq<char>,
    case_sensitive: bool,
) -> bool {
    &&& picks.len() == found.len()
    &&& forall|k: int|
        0 <= k < picks.len() ==> 0 <= #[trigger] picks[k] < lines.len() && found[k]
            == lines[picks[k]] && line_matches(query, lines[picks[k]], case_sensitive)
    &&& forall|j: int, k: int| 0 <= j < k < picks.len() ==> picks[j] < picks[k]
    &&& forall|at: int|
        0 <= at < lines.len() && line_matches(query, #[trigger] lines[at], case_sensitive)
            ==> picks.contains(at)
}

/// A search finds the matching lines, all of them and nothing else, in the
/// order and number in which the text holds them: every line found is a line
/// of the text that matches the query, every line of the text that matches is
/// found, and the lines found follow one another as they do in the text.
pub proof fn lemma_search_keeps_the_matches(
    query: Seq<char>,
    contents: Seq<char>,
    case_sensitive: bool,
)
    ensures
        exists|picks: Seq<int>|
            keeps_the_matches(
                matching_lines(query, contents, case_sensitive),
                lines_of(contents),
                picks,
                query,
                case_sensitive,
            ),
{
    let lines = lines_of(contents);
    let wanted = matcher(query, case_sensitive);
    lemma_filter_by_positions(lines, wanted);
    assert(keeps_the_matches(
        matching_lines(query, contents, case_sensitive),
        lines,
        positions_of(lines, wanted),
        query,
        case_sensitive,
    ));
}

/// Folding case away loses no match: a line that matches with case counted
/// matches with case folded too, so the case-sensitive result is the
/// case-insensitive one cut down to the exact matches, and is no longer.
pub proof fn lemma_folding_loses_no_match(query: Seq<char>, contents: Seq<char>)
    ensures
        forall|line: Seq<char>| #[trigger]
            line_matches(query, line, true) ==> line_matches(query, line, false),
        matching_lines(query, contents, true) == matching_lines(query, contents, false).filter(
            matcher(query, true),
        ),
        matching_lines(query, contents, true).len() <= matching_lines(
            query,
            contents,
            false,
        ).len(),
{
    assert forall|line: Seq<char>| #[trigger]
        line_matches(query, line, true) implies line_matches(query, line, false) by {
        lemma_exact_match_is_folded_match(query, line);
    }
    lemma_filter_twice(lines_of(contents), matcher(query, false), matcher(query, true));
    matching_lines(query, contents, false).lemma_filter_len(matcher(query, true));
}

/// The empty query finds every line, in both modes.
pub proof fn lemma_empty_query_finds_every_line(
    query: Seq<char>,
    contents: Seq<char>,
    case_sensitive: bool,
)
    requires
        query.len() == 0,
    ensures
        matching_lines(query, contents, case_sensitive) == lines_of(contents),
{
    let lines = lines_of(contents);
    assert forall|at: int| 0 <= at < lines.len() implies matcher(query, case_sensitive)(
        #[trigger] lines[at],
    ) by {
        lemma_empty_query_matches(query, lines[at], case_sensitive);
    }
    lemma_filter_keeps_all(lines, matcher(query, case_sensitive));
}

} // verus!
