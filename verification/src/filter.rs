//! Filtering the catalog.
//!
//! Both filters keep the entries that match, in the catalog's order; nothing
//! is sorted and duplicates stay. A catalog is modelled by the sequence of
//! its entries' character sequences.

use vstd::prelude::*;
use crate::pattern::{
    compile,
    compile_outcome,
    is_report_of,
    pattern_is_valid,
    pattern_matches,
    regex_accepts,
    PatternError,
};
use crate::text::{chars_of, contains, eq_ignore_ascii_case, equals_ignore_ascii_case, is_substring};

verus! {

/// An entry matches a query if the query occurs in it as a literal
/// substring, case and all, or if the two are equal apart from ASCII case.
pub open spec fn matches_query(entry: Seq<char>, query: Seq<char>) -> bool {
    is_substring(query, entry) || eq_ignore_ascii_case(entry, query)
}

/// The entries of the catalog that match the query.
pub open spec fn matching_query(catalog: Seq<Seq<char>>, query: Seq<char>) -> Seq<Seq<char>> {
    catalog.filter(|entry: Seq<char>| matches_query(entry, query))
}

/// The entries of the catalog in which the compiled pattern matches.
pub open spec fn accepted_by(catalog: Seq<Seq<char>>, re: regex::Regex) -> Seq<Seq<char>> {
    catalog.filter(|entry: Seq<char>| regex_accepts(re, entry))
}

/// The entries of the catalog in which the pattern matches somewhere.
pub open spec fn matching_pattern(catalog: Seq<Seq<char>>, pattern: Seq<char>) -> Seq<Seq<char>> {
    catalog.filter(|entry: Seq<char>| pattern_matches(pattern, entry))
}

/// The entries whose flag is set: entry `i` is kept if `flags` has a
/// position `i` and holds `true` there.
pub open spec fn flagged(entries: Seq<Seq<char>>, flags: Seq<bool>) -> Seq<Seq<char>>
    decreases entries.len(),
{
    if entries.len() == 0 {
        entries
    } else {
        let rest = flagged(entries.drop_last(), flags);
        if entries.len() <= flags.len() && flags[entries.len() - 1] {
            rest.push(entries.last())
        } else {
            rest
        }
    }
}

/// Keeping the flagged entries is filtering by a predicate, where the flags
/// say for each entry whether the predicate holds of it.
pub proof fn lemma_flagged_is_filter(
    entries: Seq<Seq<char>>,
    flags: Seq<bool>,
    keep: spec_fn(Seq<char>) -> bool,
)
    requires
        flags.len() >= entries.len(),
        forall|i: int| 0 <= i < entries.len() ==> flags[i] == keep(#[trigger] entries[i]),
    ensures
        flagged(entries, flags) == entries.filter(keep),
    decreases entries.len(),
{
    reveal(Seq::filter);
    if entries.len() > 0 {
        lemma_flagged_is_filter(entries.drop_last(), flags, keep);
    }
}

/// An element is in a filtered sequence exactly if it is in the sequence
/// and the predicate holds of it.
pub proof fn lemma_filter_members(
    entries: Seq<Seq<char>>,
    keep: spec_fn(Seq<char>) -> bool,
    entry: Seq<char>,
)
    ensures
        entries.filter(keep).contains(entry) <==> entries.contains(entry) && keep(entry),
{
    let kept = entries.filter(keep);
    if kept.contains(entry) {
        entries.lemma_filter_contains_rev(keep, entry);
        let i = choose|i: int| 0 <= i < kept.len() && kept[i] == entry;
        entries.lemma_filter_pred(keep, i);
    }
    if entries.contains(entry) && keep(entry) {
        let i = choose|i: int| 0 <= i < entries.len() && entries[i] == entry;
        entries.lemma_filter_contains(keep, i);
    }
}

/// The query filter is a union of two filters: as sets, its hits are the
/// entries that contain the query as a literal substring together with the
/// entries that equal the query apart from ASCII case. Neither leg alone
/// gives the hits.
pub proof fn lemma_query_hits_are_union(catalog: Seq<Seq<char>>, query: Seq<char>)
    ensures
        matching_query(catalog, query).to_set() == catalog.filter(
            |entry: Seq<char>| is_substring(query, entry),
        ).to_set().union(
            catalog.filter(|entry: Seq<char>| eq_ignore_ascii_case(entry, query)).to_set(),
        ),
        forall|entry: Seq<char>| #[trigger]
            matching_query(catalog, query).contains(entry) <==> catalog.contains(entry) && (
            is_substring(query, entry) || eq_ignore_ascii_case(entry, query)),
{
    let either = |entry: Seq<char>| matches_query(entry, query);
    let by_substring = |entry: Seq<char>| is_substring(query, entry);
    let by_equality = |entry: Seq<char>| eq_ignore_ascii_case(entry, query);
    assert forall|entry: Seq<char>|
        catalog.filter(either).contains(entry) <==> catalog.filter(by_substring).contains(entry)
            || catalog.filter(by_equality).contains(entry) by {
        lemma_filter_members(catalog, either, entry);
        lemma_filter_members(catalog, by_substring, entry);
        lemma_filter_members(catalog, by_equality, entry);
    }
    assert(catalog.filter(either).to_set() =~= catalog.filter(by_substring).to_set().union(
        catalog.filter(by_equality).to_set(),
    ));
    assert forall|entry: Seq<char>| #[trigger]
        matching_query(catalog, query).contains(entry) <==> catalog.contains(entry) && (
        is_substring(query, entry) || eq_ignore_ascii_case(entry, query)) by {
        lemma_filter_members(catalog, either, entry);
    }
}

/// For a pattern that compiles, the hits of the pattern filter are exactly
/// the entries of the catalog in which the pattern matches somewhere.
pub proof fn lemma_pattern_hits(catalog: Seq<Seq<char>>, pattern: Seq<char>, entry: Seq<char>)
    requires
        pattern_is_valid(pattern),
    ensures
        matching_pattern(catalog, pattern).contains(entry) <==> catalog.contains(entry)
            && regex_accepts(compile_outcome(pattern)->Ok_0, entry),
{
    lemma_filter_members(catalog, |entry: Seq<char>| pattern_matches(pattern, entry), entry);
}

/// A filter keeps the catalog's order: the hits are the catalog with the
/// entries that do not match left out, so of two hits the one that comes
/// first in the catalog comes first among the hits.
pub proof fn lemma_filter_keeps_order(
    catalog: Seq<Seq<char>>,
    keep: spec_fn(Seq<char>) -> bool,
    cut: int,
)
    requires
        0 <= cut <= catalog.len(),
    ensures
        catalog.filter(keep) == catalog.take(cut).filter(keep) + catalog.skip(cut).filter(keep),
{
    assert(catalog =~= catalog.take(cut) + catalog.skip(cut));
    Seq::filter_distributes_over_add(catalog.take(cut), catalog.skip(cut), keep);
}

/// The entries of the catalog whose flag is set, in the catalog's order.
pub fn retain_flagged(catalog: &Vec<String>, flags: &Vec<bool>) -> (kept: Vec<String>)
    ensures
        kept.deep_view() == flagged(catalog.deep_view(), flags@),
{
    let mut kept: Vec<String> = Vec::new();
    let mut i: usize = 0;
    assert(kept.deep_view() =~= catalog.deep_view().take(0));
    while i < catalog.len()
        invariant
            i <= catalog.len(),
            kept.deep_view() == flagged(catalog.deep_view().take(i as int), flags@),
        decreases catalog.len() - i,
    {
        let ghost before = kept.deep_view();
        assert(catalog.deep_view().take(i + 1).drop_last() =~= catalog.deep_view().take(i as int));
        if i < flags.len() && flags[i] {
            let entry = catalog[i].clone();
            kept.push(entry);
            assert(kept.deep_view() =~= before.push(catalog[i as int]@));
        }
        i += 1;
    }
    assert(catalog.deep_view().take(catalog.len() as int) =~= catalog.deep_view());
    kept
}

/// Whether the entry matches the query, given both as characters.
pub fn entry_matches_query(entry: &Vec<char>, query: &Vec<char>) -> (hit: bool)
    ensures
        hit == matches_query(entry@, query@),
{
    contains(entry, query) || equals_ignore_ascii_case(entry, query)
}

/// The entries that contain the query as a literal substring or equal it
/// apart from ASCII case, in the catalog's order.
pub fn filter_substring_or_exact_ci(catalog: &Vec<String>, query: &str) -> (hits: Vec<String>)
    ensures
        hits.deep_view() == matching_query(catalog.deep_view(), query@),
{
    let wanted = chars_of(query);
    let mut flags: Vec<bool> = Vec::new();
    let mut i: usize = 0;
    while i < catalog.len()
        invariant
            i <= catalog.len(),
            flags.len() == i,
            wanted@ == query@,
            forall|j: int| 0 <= j < i ==> flags@[j] == matches_query(catalog@[j]@, query@),
        decreases catalog.len() - i,
    {
        let entry = chars_of(catalog[i].as_str());
        flags.push(entry_matches_query(&entry, &wanted));
        i += 1;
    }
    proof {
        lemma_flagged_is_filter(
            catalog.deep_view(),
            flags@,
            |entry: Seq<char>| matches_query(entry, query@),
        );
    }
    retain_flagged(catalog, &flags)
}

/// The entries in which the compiled pattern matches somewhere, in the
/// catalog's order.
pub fn filter_compiled(catalog: &Vec<String>, re: &regex::Regex) -> (hits: Vec<String>)
    ensures
        hits.deep_view() == accepted_by(catalog.deep_view(), *re),
{
    let mut flags: Vec<bool> = Vec::new();
    let mut i: usize = 0;
    while i < catalog.len()
        invariant
            i <= catalog.len(),
            flags.len() == i,
            forall|j: int| 0 <= j < i ==> flags@[j] == regex_accepts(*re, catalog@[j]@),
        decreases catalog.len() - i,
    {
        flags.push(re.is_match(catalog[i].as_str()));
        i += 1;
    }
    proof {
        lemma_flagged_is_filter(
            catalog.deep_view(),
            flags@,
            |entry: Seq<char>| regex_accepts(*re, entry),
        );
    }
    retain_flagged(catalog, &flags)
}

/// The entries in which the pattern matches somewhere, in the catalog's
/// order; for a pattern that does not compile, the error that reports it.
pub fn filter_regex(catalog: &Vec<String>, pattern: &str) -> (r: Result<Vec<String>, PatternError>)
    ensures
        r is Ok <==> pattern_is_valid(pattern@),
        r matches Ok(hits) ==> hits.deep_view() == matching_pattern(
            catalog.deep_view(),
            pattern@,
        ),
        r matches Err(e) ==> is_report_of(e, pattern@, compile_outcome(pattern@)->Err_0),
{
    match compile(pattern) {
        Ok(re) => {
            let hits = filter_compiled(catalog, &re);
            proof {
                let by_regex = |entry: Seq<char>| regex_accepts(re, entry);
                let by_pattern = |entry: Seq<char>| pattern_matches(pattern@, entry);
                assert(by_regex =~= by_pattern);
            }
            Ok(hits)
        },
        Err(e) => Err(e),
    }
}

} // verus!
