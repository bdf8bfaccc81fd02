//! Case-insensitive fuzzy narrowing of fighter names, scored by the skim
//! matcher of the `fuzzy-matcher` crate.

use fuzzy_matcher::FuzzyMatcher;
use fuzzy_matcher::skim::SkimMatcherV2;
use vstd::prelude::*;
use vstd::relations::{sorted_by, total_ordering};
use crate::text::{all_ws, is_blank, views};

verus! {

/// The score `SkimMatcherV2` (default scoring, case ignored) gives `choice`
/// for `pattern`; `None` when `pattern` does not fuzzy-match `choice`.
pub uninterp spec fn skim_score(choice: Seq<char>, pattern: Seq<char>) -> Option<i64>;

/// Calls `SkimMatcherV2::fuzzy_match` on a matcher built with
/// `SkimMatcherV2::default().ignore_case()`. The contract only names the
/// result: it is whatever that matcher returns for these two strings.
#[verifier::external_body]
fn skim_fuzzy_match(choice: &str, pattern: &str) -> (r: Option<i64>)
    ensures
        r == skim_score(choice@, pattern@),
{
    SkimMatcherV2::default().ignore_case().fuzzy_match(choice, pattern)
}

/// `(original index, score)` of every name that matches `q`, in list order.
pub open spec fn match_keys(names: Seq<Seq<char>>, q: Seq<char>) -> Seq<(usize, i64)>
    decreases names.len(),
{
    if names.len() == 0 {
        Seq::empty()
    } else {
        let rest = match_keys(names.drop_last(), q);
        match skim_score(names.last(), q) {
            Some(s) => rest.push(((names.len() - 1) as usize, s)),
            None => rest,
        }
    }
}

/// Best score first; equal scores keep their original list order.
pub open spec fn rank_order() -> spec_fn((usize, i64), (usize, i64)) -> bool {
    |a: (usize, i64), b: (usize, i64)| a.1 > b.1 || (a.1 == b.1 && a.0 <= b.0)
}

/// What `rank_scored` returns: for a blank query every name with score 0 in
/// list order; otherwise the matching names with their scores, best first,
/// ties in list order.
pub open spec fn ranked(names: Seq<Seq<char>>, q: Seq<char>) -> Seq<(Seq<char>, i64)> {
    if all_ws(q) {
        Seq::new(names.len(), |i: int| (names[i], 0i64))
    } else {
        match_keys(names, q).sort_by(rank_order()).map_values(|p: (usize, i64)| (names[p.0 as int], p.1))
    }
}

/// The character views of scored names.
pub open spec fn scored_views(v: Seq<(String, i64)>) -> Seq<(Seq<char>, i64)> {
    v.map_values(|p: (String, i64)| (p.0@, p.1))
}

proof fn lemma_rank_order_total()
    ensures
        total_ordering(rank_order()),
{
}

proof fn lemma_match_keys_indices(names: Seq<Seq<char>>, q: Seq<char>)
    requires
        names.len() <= usize::MAX,
    ensures
        forall|k: int| 0 <= k < match_keys(names, q).len() ==> {
            let e = #[trigger] match_keys(names, q)[k];
            e.0 < names.len() && skim_score(names[e.0 as int], q) == Some(e.1)
        },
    decreases names.len(),
{
    if names.len() > 0 {
        lemma_match_keys_indices(names.drop_last(), q);
        let rest = match_keys(names.drop_last(), q);
        assert forall|k: int| 0 <= k < match_keys(names, q).len() implies {
            let e = #[trigger] match_keys(names, q)[k];
            e.0 < names.len() && skim_score(names[e.0 as int], q) == Some(e.1)
        } by {
            if k < rest.len() {
                assert(match_keys(names, q)[k] == rest[k]);
                assert(names.drop_last()[rest[k].0 as int] == names[rest[k].0 as int]);
            } else {
                assert(names.last() == names[names.len() - 1]);
            }
        }
    }
}

proof fn lemma_insert_to_multiset<A>(s: Seq<A>, i: int, x: A)
    requires
        0 <= i <= s.len(),
    ensures
        s.insert(i, x).to_multiset() =~= s.to_multiset().insert(x),
{
    broadcast use vstd::seq_lib::group_to_multiset_ensures;
    let t = s.insert(i, x);
    assert(t.remove(i) =~= s);
    assert(t[i] == x);
    assert(t.remove(i).to_multiset() == t.to_multiset().remove(x));
    assert(t.to_multiset().count(x) > 0) by {
        assert(t.contains(x));
    }
}

/// Sorts `(index, score)` keys best score first, ties by index.
fn sort_rank_keys(v: Vec<(usize, i64)>) -> (r: Vec<(usize, i64)>)
    ensures
        r@ == v@.sort_by(rank_order()),
{
    broadcast use vstd::seq_lib::group_to_multiset_ensures;
    proof {
        lemma_rank_order_total();
    }
    let mut out: Vec<(usize, i64)> = Vec::new();
    let mut i: usize = 0;
    while i < v.len()
        invariant
            i <= v.len(),
            total_ordering(rank_order()),
            sorted_by(out@, rank_order()),
            out@.to_multiset() == v@.take(i as int).to_multiset(),
        decreases v.len() - i,
    {
        let x = v[i];
        let mut lo: usize = 0;
        let mut hi: usize = out.len();
        while lo < hi
            invariant
                total_ordering(rank_order()),
                sorted_by(out@, rank_order()),
                lo <= hi <= out.len(),
                forall|k: int| 0 <= k < lo ==> rank_order()(#[trigger] out@[k], x),
                forall|k: int| hi <= k < out.len() ==> !rank_order()(#[trigger] out@[k], x),
            decreases hi - lo,
        {
            let mid = lo + (hi - lo) / 2;
            let y = out[mid];
            if y.1 > x.1 || (y.1 == x.1 && y.0 <= x.0) {
                assert forall|k: int| 0 <= k <= mid implies rank_order()(#[trigger] out@[k], x) by {
                    if k < mid {
                        assert(rank_order()(out@[k], out@[mid as int]));
                    }
                }
                lo = mid + 1;
            } else {
                assert forall|k: int| mid <= k < out.len() implies !rank_order()(#[trigger] out@[k], x) by {
                    if k > mid {
                        assert(rank_order()(out@[mid as int], out@[k]));
                    }
                }
                hi = mid;
            }
        }
        let ghost old_out = out@;
        out.insert(lo, x);
        proof {
            lemma_insert_to_multiset(old_out, lo as int, x);
            assert(v@.take(i + 1) =~= v@.take(i as int).push(x));
            vstd::seq_lib::to_multiset_build(v@.take(i as int), x);
            assert forall|a: int, b: int| 0 <= a < b < out@.len() implies
                #[trigger] rank_order()(out@[a], out@[b]) by {
                if b < lo {
                    assert(rank_order()(old_out[a], old_out[b]));
                } else if b == lo {
                } else if a < lo {
                    assert(rank_order()(old_out[a], old_out[b - 1]));
                } else if a == lo {
                    assert(!rank_order()(old_out[b - 1], x));
                } else {
                    assert(rank_order()(old_out[a - 1], old_out[b - 1]));
                }
            }
        }
        i += 1;
    }
    proof {
        assert(v@.take(v.len() as int) =~= v@);
        v@.lemma_sort_by_ensures(rank_order());
        vstd::seq_lib::lemma_sorted_unique(out@, v@.sort_by(rank_order()), rank_order());
    }
    out
}

/// Like [`rank`] but pairs each match with its score (higher is better),
/// best first. A blank query yields every name with score 0, in order.
pub fn rank_scored(names: &[String], query: &str) -> (r: Vec<(String, i64)>)
    ensures
        scored_views(r@) == ranked(views(names@), query@),
{
    let ghost nv = views(names@);
    if is_blank(query) {
        let mut out: Vec<(String, i64)> = Vec::new();
        let mut i: usize = 0;
        while i < names.len()
            invariant
                i <= names.len(),
                nv == views(names@),
                scored_views(out@) == Seq::new(i as nat, |k: int| (nv[k], 0i64)),
            decreases names.len() - i,
        {
            let ghost before = out@;
            let nm = names[i].clone();
            assert(nm@ == nv[i as int]);
            out.push((nm, 0));
            assert(scored_views(out@) =~= scored_views(before).push((nv[i as int], 0i64)));
            i += 1;
            assert(scored_views(out@) =~= Seq::new(i as nat, |k: int| (nv[k], 0i64)));
        }
        return out;
    }
    let mut keys: Vec<(usize, i64)> = Vec::new();
    let mut i: usize = 0;
    while i < names.len()
        invariant
            i <= names.len(),
            nv == views(names@),
            keys@ == match_keys(nv.take(i as int), query@),
        decreases names.len() - i,
    {
        let score = skim_fuzzy_match(names[i].as_str(), query);
        proof {
            let t = nv.take(i + 1);
            assert(t.drop_last() =~= nv.take(i as int));
            assert(t.last() == names@[i as int]@);
        }
        match score {
            Some(s) => keys.push((i, s)),
            None => {},
        }
        i += 1;
    }
    assert(nv.take(names.len() as int) =~= nv);
    let sorted = sort_rank_keys(keys);
    proof {
        lemma_match_keys_indices(nv, query@);
        keys@.lemma_sort_by_ensures(rank_order());
        assert forall|k: int| 0 <= k < sorted@.len() implies (#[trigger] sorted@[k]).0 < names.len() by {
            assert(sorted@.contains(sorted@[k]));
            assert(keys@.contains(sorted@[k]));
            let w = choose|w: int| 0 <= w < keys@.len() && keys@[w] == sorted@[k];
            assert(match_keys(nv, query@)[w] == keys@[w]);
        }
    }
    let mut out: Vec<(String, i64)> = Vec::new();
    let mut j: usize = 0;
    while j < sorted.len()
        invariant
            j <= sorted.len(),
            nv == views(names@),
            forall|k: int| 0 <= k < sorted@.len() ==> (#[trigger] sorted@[k]).0 < names.len(),
            scored_views(out@) == sorted@.take(j as int).map_values(|p: (usize, i64)| (nv[p.0 as int], p.1)),
        decreases sorted.len() - j,
    {
        let (idx, s) = sorted[j];
        assert(sorted@[j as int].0 < names.len());
        let ghost before = out@;
        let nm = names[idx].clone();
        assert(nm@ == nv[idx as int]);
        out.push((nm, s));
        assert(scored_views(out@) =~= scored_views(before).push((nv[idx as int], s)));
        assert(sorted@.take(j + 1) =~= sorted@.take(j as int).push(sorted@[j as int]));
        j += 1;
        assert(scored_views(out@) =~= sorted@.take(j as int).map_values(|p: (usize, i64)| (nv[p.0 as int], p.1)));
    }
    assert(sorted@.take(sorted.len() as int) =~= sorted@);
    out
}

/// Filters and ranks `names` by fuzzy similarity to `query`, ignoring case:
/// a blank query returns every name in its original order; otherwise only the
/// matching names, best match first.
pub fn rank(names: &[String], query: &str) -> (r: Vec<String>)
    ensures
        views(r@) == ranked(views(names@), query@).map_values(|p: (Seq<char>, i64)| p.0),
{
    let scored = rank_scored(names, query);
    let mut out: Vec<String> = Vec::new();
    let mut i: usize = 0;
    while i < scored.len()
        invariant
            i <= scored.len(),
            views(out@) == scored_views(scored@).take(i as int).map_values(|p: (Seq<char>, i64)| p.0),
        decreases scored.len() - i,
    {
        let ghost before = out@;
        let nm = scored[i].0.clone();
        assert(nm@ == scored_views(scored@)[i as int].0);
        out.push(nm);
        assert(views(out@) =~= views(before).push(nm@));
        assert(scored_views(scored@).take(i + 1) =~= scored_views(scored@).take(i as int).push(scored_views(scored@)[i as int]));
        i += 1;
        assert(views(out@) =~= scored_views(scored@).take(i as int).map_values(|p: (Seq<char>, i64)| p.0));
    }
    assert(scored_views(scored@).take(scored.len() as int) =~= scored_views(scored@));
    out
}

/// Scores never rise down a ranking: each entry scores at least as high as
/// every entry after it.
pub proof fn ranked_scores_descend(names: Seq<Seq<char>>, q: Seq<char>)
    ensures
        forall|i: int, j: int|
            0 <= i < j < ranked(names, q).len() ==> ranked(names, q)[i].1 >= ranked(names, q)[j].1,
{
    if !all_ws(q) {
        let keys = match_keys(names, q);
        lemma_rank_order_total();
        keys.lemma_sort_by_ensures(rank_order());
        let sorted = keys.sort_by(rank_order());
        assert forall|i: int, j: int| 0 <= i < j < ranked(names, q).len() implies
            ranked(names, q)[i].1 >= ranked(names, q)[j].1 by {
            assert(rank_order()(sorted[i], sorted[j]));
        }
    }
}

/// For a query with something in it, every entry of the ranking is one of the
/// names, paired with the score the matcher gives that name; names that the
/// matcher rejects never appear.
pub proof fn ranked_entries_are_matches(names: Seq<Seq<char>>, q: Seq<char>)
    requires
        names.len() <= usize::MAX,
        !all_ws(q),
    ensures
        forall|k: int| 0 <= k < ranked(names, q).len() ==> exists|i: int|
            0 <= i < names.len() && names[i] == (#[trigger] ranked(names, q)[k]).0
                && skim_score(names[i], q) == Some(ranked(names, q)[k].1),
{
    broadcast use vstd::seq_lib::group_to_multiset_ensures;
    let keys = match_keys(names, q);
    lemma_rank_order_total();
    lemma_match_keys_indices(names, q);
    keys.lemma_sort_by_ensures(rank_order());
    let sorted = keys.sort_by(rank_order());
    assert forall|k: int| 0 <= k < ranked(names, q).len() implies exists|i: int|
        0 <= i < names.len() && names[i] == (#[trigger] ranked(names, q)[k]).0
            && skim_score(names[i], q) == Some(ranked(names, q)[k].1) by {
        assert(sorted.to_multiset().count(sorted[k]) > 0) by {
            assert(sorted.contains(sorted[k]));
        }
        assert(keys.contains(sorted[k]));
        let w = choose|w: int| 0 <= w < keys.len() && keys[w] == sorted[k];
        assert(keys[w].0 < names.len());
        let i = sorted[k].0 as int;
        assert(names[i] == ranked(names, q)[k].0);
    }
}

/// Equal scores keep list order: of two matches with the same score, the one
/// earlier in the list is ranked no later.
pub proof fn ranked_ties_keep_list_order(names: Seq<Seq<char>>, q: Seq<char>)
    ensures
        forall|i: int, j: int|
            0 <= i < j < match_keys(names, q).sort_by(rank_order()).len()
                && (#[trigger] match_keys(names, q).sort_by(rank_order())[i]).1
                    == (#[trigger] match_keys(names, q).sort_by(rank_order())[j]).1
                ==> match_keys(names, q).sort_by(rank_order())[i].0 <= match_keys(names, q).sort_by(rank_order())[j].0,
{
    let keys = match_keys(names, q);
    lemma_rank_order_total();
    keys.lemma_sort_by_ensures(rank_order());
    let sorted = keys.sort_by(rank_order());
    assert forall|i: int, j: int|
        0 <= i < j < sorted.len() && (#[trigger] sorted[i]).1 == (#[trigger] sorted[j]).1 implies sorted[i].0 <= sorted[j].0 by {
        assert(rank_order()(sorted[i], sorted[j]));
    }
}

proof fn lemma_match_keys_complete(names: Seq<Seq<char>>, q: Seq<char>, i: int)
    requires
        names.len() <= usize::MAX,
        0 <= i < names.len(),
        skim_score(names[i], q) is Some,
    ensures
        match_keys(names, q).contains((i as usize, skim_score(names[i], q)->0)),
    decreases names.len(),
{
    let rest = match_keys(names.drop_last(), q);
    if i == names.len() - 1 {
        let kv = (i as usize, skim_score(names[i], q)->0);
        assert(match_keys(names, q) == rest.push(kv));
        assert(match_keys(names, q)[rest.len() as int] == kv);
    } else {
        assert(names.drop_last()[i] == names[i]);
        lemma_match_keys_complete(names.drop_last(), q, i);
        let k = choose|k: int| 0 <= k < rest.len() && rest[k] == (i as usize, skim_score(names[i], q)->0);
        match skim_score(names.last(), q) {
            Some(sc) => {
                assert(match_keys(names, q)[k] == rest[k]);
            },
            None => {},
        }
    }
}

/// Nothing the matcher accepts is dropped: for a query with something in it,
/// every name the matcher scores appears in the ranking with that score, and
/// the ranking holds one entry per matching name.
pub proof fn ranked_keeps_every_match(names: Seq<Seq<char>>, q: Seq<char>, i: int)
    requires
        names.len() <= usize::MAX,
        !all_ws(q),
        0 <= i < names.len(),
        skim_score(names[i], q) is Some,
    ensures
        exists|k: int| 0 <= k < ranked(names, q).len() && (#[trigger] ranked(names, q)[k]).0 == names[i]
            && ranked(names, q)[k].1 == skim_score(names[i], q)->0,
        ranked(names, q).len() == match_keys(names, q).len(),
{
    broadcast use vstd::seq_lib::group_to_multiset_ensures;
    let keys = match_keys(names, q);
    let kv = (i as usize, skim_score(names[i], q)->0);
    lemma_rank_order_total();
    lemma_match_keys_complete(names, q, i);
    keys.lemma_sort_by_ensures(rank_order());
    let sorted = keys.sort_by(rank_order());
    assert(keys.to_multiset().count(kv) > 0);
    assert(sorted.to_multiset().count(kv) > 0);
    assert(sorted.contains(kv));
    let k = choose|k: int| 0 <= k < sorted.len() && sorted[k] == kv;
    assert(sorted.len() == keys.len()) by {
        assert(sorted.to_multiset().len() == keys.to_multiset().len());
    }
    assert(ranked(names, q)[k].0 == names[i]);
}

} // verus!
