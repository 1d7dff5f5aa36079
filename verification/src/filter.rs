//! The line filter: the lines of a text that match a query.

use vstd::prelude::*;
use crate::config::Config;
use crate::model::{folded, lines_of, matcher, matching_lines, occurs_in};
use crate::text::{contains, fold_case, lines};

verus! {

/// One step of the filter: `line` joins `found` when `needle` is a part of
/// `key`, the text by which the line is compared. With case counted the key
/// is the line itself, else the folded line.
pub fn keep_if_found<'a>(found: &mut Vec<&'a str>, line: &'a str, key: &str, needle: &str)
    ensures
        occurs_in(needle@, key@) ==> final(found).deep_view() == old(found).deep_view().push(line@),
        !occurs_in(needle@, key@) ==> final(found).deep_view() == old(found).deep_view(),
{
    if contains(key, needle) {
        found.push(line);
    }
}

/// The lines of `contents` that contain `query` exactly as written.
pub fn search<'a>(query: &str, contents: &'a str) -> (found: Vec<&'a str>)
    ensures
        found.deep_view() == matching_lines(query@, contents@, true),
{
    let all = lines(contents);
    let mut found: Vec<&'a str> = Vec::new();
    let mut at: usize = 0;
    while at < all.len()
        invariant
            at <= all.len(),
            found.deep_view() == all.deep_view().take(at as int).filter(matcher(query@, true)),
        decreases all.len() - at,
    {
        let line = all[at];
        keep_if_found(&mut found, line, line, query);
        proof {
            let seen = all.deep_view().take(at as int);
            assert(all.deep_view().take(at + 1) =~= seen.push(line@));
            seen.lemma_filter_push(line@, matcher(query@, true));
        }
        at += 1;
    }
    assert(all.deep_view().take(at as int) =~= all.deep_view());
    found
}

/// The lines of `contents` that contain `query` once letter case is folded
/// away on both sides. The lines come back as `contents` holds them.
pub fn search_case_insensitive<'a>(query: &str, contents: &'a str) -> (found: Vec<&'a str>)
    ensures
        found.deep_view() == matching_lines(query@, contents@, false),
{
    let needle = fold_case(query);
    let all = lines(contents);
    let mut found: Vec<&'a str> = Vec::new();
    let mut at: usize = 0;
    while at < all.len()
        invariant
            at <= all.len(),
            needle@ == folded(query@),
            found.deep_view() == all.deep_view().take(at as int).filter(matcher(query@, false)),
        decreases all.len() - at,
    {
        let line = all[at];
        let key = fold_case(line);
        keep_if_found(&mut found, line, key.as_str(), needle.as_str());
        proof {
            let seen = all.deep_view().take(at as int);
            assert(all.deep_view().take(at + 1) =~= seen.push(line@));
            seen.lemma_filter_push(line@, matcher(query@, false));
        }
        at += 1;
    }
    assert(all.deep_view().take(at as int) =~= all.deep_view());
    found
}

/// The lines of `contents` that match `query`, with letter case counted or
/// folded away as `case_sensitive` says.
pub fn filter_lines<'a>(query: &str, contents: &'a str, case_sensitive: bool) -> (found: Vec<
    &'a str,
>)
    ensures
        found.deep_view() == matching_lines(query@, contents@, case_sensitive),
{
    if case_sensitive {
        search(query, contents)
    } else {
        search_case_insensitive(query, contents)
    }
}

/// The search that `config` describes, on the contents of its file: the
/// lines to report, in order.
pub fn run<'a>(config: &Config, contents: &'a str) -> (found: Vec<&'a str>)
    ensures
        found.deep_view() == matching_lines(config.query@, contents@, config.case_sensitive),
{
    filter_lines(config.query.as_str(), contents, config.case_sensitive)
}

} // verus!
