//! Selecting the lines of a text that contain a query.

use vstd::prelude::*;

use crate::config::Terms;
use crate::text::{
    contains_seq, has_substring, lines_of, lower_of, lowercase, split_lines, texts,
};

verus! {

/// The lines of `contents` that contain `query` exactly, in their order.
pub open spec fn exact_matches(query: Seq<char>, contents: Seq<char>) -> Seq<Seq<char>> {
    lines_of(contents).filter(|l: Seq<char>| contains_seq(l, query))
}

/// The lines of `contents` whose lowercase form contains the lowercase form
/// of `query`, in their order and in their own casing.
pub open spec fn folded_matches(query: Seq<char>, contents: Seq<char>) -> Seq<Seq<char>> {
    lines_of(contents).filter(|l: Seq<char>| contains_seq(lower_of(l), lower_of(query)))
}

/// Keeping the elements on which a predicate always holds keeps them all.
pub proof fn lemma_filter_all<A>(s: Seq<A>, pred: spec_fn(A) -> bool)
    requires
        forall|i: int| 0 <= i < s.len() ==> pred(#[trigger] s[i]),
    ensures
        s.filter(pred) == s,
    decreases s.len(),
{
    reveal(Seq::filter);
    if s.len() > 0 {
        lemma_filter_all(s.drop_last(), pred);
        assert(s.drop_last().push(s.last()) =~= s);
    }
}

/// The empty text occurs in every text.
pub proof fn lemma_empty_occurs(hay: Seq<char>)
    ensures
        contains_seq(hay, Seq::<char>::empty()),
{
    let empty = Seq::<char>::empty();
    assert(hay.subrange(0, 0 + empty.len() as int) =~= empty);
}

/// With an empty query, exact search keeps every line as it is.
pub proof fn lemma_empty_query_keeps_all_lines(query: Seq<char>, contents: Seq<char>)
    requires
        query.len() == 0,
    ensures
        exact_matches(query, contents) == lines_of(contents),
{
    let pred = |l: Seq<char>| contains_seq(l, query);
    assert(query =~= Seq::<char>::empty());
    assert forall|i: int| 0 <= i < lines_of(contents).len() implies pred(
        #[trigger] lines_of(contents)[i],
    ) by {
        lemma_empty_occurs(lines_of(contents)[i]);
    }
    lemma_filter_all(lines_of(contents), pred);
}

/// Exact search keeps a line exactly when it contains the query: every line
/// it returns contains the query, and every line that contains the query is
/// among those it returns.
pub proof fn lemma_exact_matches_members(query: Seq<char>, contents: Seq<char>)
    ensures
        forall|i: int|
            0 <= i < exact_matches(query, contents).len() ==> contains_seq(
                #[trigger] exact_matches(query, contents)[i],
                query,
            ),
        forall|i: int|
            0 <= i < lines_of(contents).len() && contains_seq(lines_of(contents)[i], query)
                ==> exact_matches(query, contents).contains(#[trigger] lines_of(contents)[i]),
{
    broadcast use vstd::seq_lib::group_filter_ensures;
}

/// Case-insensitive search keeps a line exactly when its lowercase form
/// contains the lowercase form of the query.
pub proof fn lemma_folded_matches_members(query: Seq<char>, contents: Seq<char>)
    ensures
        forall|i: int|
            0 <= i < folded_matches(query, contents).len() ==> contains_seq(
                lower_of(#[trigger] folded_matches(query, contents)[i]),
                lower_of(query),
            ),
        forall|i: int|
            0 <= i < lines_of(contents).len() && contains_seq(
                lower_of(lines_of(contents)[i]),
                lower_of(query),
            ) ==> folded_matches(query, contents).contains(#[trigger] lines_of(contents)[i]),
{
    broadcast use vstd::seq_lib::group_filter_ensures;
}

/// The lines of `contents` that contain `query`, each character compared as
/// it is; the results are the original lines, in the order they come.
pub fn search_case_sensitive<'contents>(query: &str, contents: &'contents str) -> (r: Vec<
    &'contents str,
>)
    ensures
        texts(r@) == exact_matches(query@, contents@),
        query@.len() == 0 ==> texts(r@) == lines_of(contents@),
{
    let lines = split_lines(contents);
    let ghost all = lines_of(contents@);
    let ghost pred = |l: Seq<char>| contains_seq(l, query@);
    let mut results: Vec<&'contents str> = Vec::new();
    let mut i: usize = 0;
    while i < lines.len()
        invariant
            i <= lines@.len(),
            texts(lines@) == all,
            texts(results@) == all.subrange(0, i as int).filter(pred),
            pred == |l: Seq<char>| contains_seq(l, query@),
        decreases lines@.len() - i,
    {
        let line = lines[i];
        assert(all[i as int] == line@);
        let ghost before = all.subrange(0, i as int);
        let ghost upto = all.subrange(0, i + 1);
        assert(upto.drop_last() =~= before);
        assert(upto.last() == line@);
        assert(upto.filter(pred) == if pred(line@) {
            before.filter(pred).push(line@)
        } else {
            before.filter(pred)
        }) by {
            reveal(Seq::filter);
        }
        if has_substring(line, query) {
            results.push(line);
            assert(texts(results@) =~= before.filter(pred).push(line@));
        }
        i = i + 1;
    }
    assert(all.subrange(0, all.len() as int) =~= all);
    proof {
        if query@.len() == 0 {
            lemma_empty_query_keeps_all_lines(query@, contents@);
        }
    }
    results
}

/// The lines of `contents` whose lowercase form contains the lowercase form
/// of `query`; the results are the original lines, in their own casing and
/// in the order they come.
pub fn search_case_insensitive<'contents>(query: &str, contents: &'contents str) -> (r: Vec<
    &'contents str,
>)
    ensures
        texts(r@) == folded_matches(query@, contents@),
{
    let query = lowercase(query);
    let lines = split_lines(contents);
    let ghost all = lines_of(contents@);
    let ghost pred = |l: Seq<char>| contains_seq(lower_of(l), query@);
    let mut results: Vec<&'contents str> = Vec::new();
    let mut i: usize = 0;
    while i < lines.len()
        invariant
            i <= lines@.len(),
            texts(lines@) == all,
            texts(results@) == all.subrange(0, i as int).filter(pred),
            pred == |l: Seq<char>| contains_seq(lower_of(l), query@),
        decreases lines@.len() - i,
    {
        let line = lines[i];
        assert(all[i as int] == line@);
        let ghost before = all.subrange(0, i as int);
        let ghost upto = all.subrange(0, i + 1);
        assert(upto.drop_last() =~= before);
        assert(upto.last() == line@);
        assert(upto.filter(pred) == if pred(line@) {
            before.filter(pred).push(line@)
        } else {
            before.filter(pred)
        }) by {
            reveal(Seq::filter);
        }
        let folded = lowercase(line);
        if has_substring(folded.as_str(), query.as_str()) {
            results.push(line);
            assert(texts(results@) =~= before.filter(pred).push(line@));
        }
        i = i + 1;
    }
    assert(all.subrange(0, all.len() as int) =~= all);
    results
}

/// The lines of `contents` that match `terms.query` in the mode
/// `terms.case_sensitive` selects, in their order.
pub fn search<'contents>(terms: &Terms, contents: &'contents str) -> (r: Vec<&'contents str>)
    ensures
        texts(r@) == if terms.case_sensitive {
            exact_matches(terms.query@, contents@)
        } else {
            folded_matches(terms.query@, contents@)
        },
{
    if terms.case_sensitive {
        search_case_sensitive(terms.query.as_str(), contents)
    } else {
        search_case_insensitive(terms.query.as_str(), contents)
    }
}

} // verus!
