//! Ranked fuzzy filtering of history lines.

use vstd::prelude::*;
use crate::text::{is_blank, is_blank_str};

verus! {

/// The score that skim's fuzzy matcher (default settings) gives `choice`
/// for `pattern`; `None` when it does not match.
pub uninterp spec fn skim_score(choice: Seq<char>, pattern: Seq<char>) -> Option<i64>;

/// The characters of `p` occur in `s` in order, not necessarily side by side.
pub open spec fn is_subsequence(p: Seq<char>, s: Seq<char>) -> bool
    decreases s.len(),
{
    if p.len() == 0 {
        true
    } else if s.len() == 0 {
        false
    } else if p[0] == s[0] {
        is_subsequence(p.drop_first(), s.drop_first())
    } else {
        is_subsequence(p, s.drop_first())
    }
}

/// Relies on `fuzzy_matcher::skim::SkimMatcherV2::fuzzy_match` with the
/// default settings: the score depends on the two strings alone, an empty
/// pattern scores zero, and a pattern whose characters occur in order in the
/// choice always matches (the matcher's first step is that greedy scan).
#[verifier::external_body]
fn skim_match(choice: &str, pattern: &str) -> (r: Option<i64>)
    ensures
        r == skim_score(choice@, pattern@),
        pattern@.len() == 0 ==> r == Some(0i64),
        is_subsequence(pattern@, choice@) ==> r is Some,
{
    fuzzy_matcher::FuzzyMatcher::fuzzy_match(
        &fuzzy_matcher::skim::SkimMatcherV2::default(),
        choice,
        pattern,
    )
}

/// The character sequences held by a sequence of strings.
pub open spec fn texts(v: Seq<String>) -> Seq<Seq<char>> {
    v.map_values(|s: String| s@)
}

/// The first `n` elements of `s`, or all of them when there are fewer.
pub open spec fn prefix<T>(s: Seq<T>, n: nat) -> Seq<T> {
    if n < s.len() {
        s.take(n as int)
    } else {
        s
    }
}

/// Item `i` of `all` matches `q`.
pub open spec fn is_hit(all: Seq<Seq<char>>, q: Seq<char>, i: int) -> bool {
    0 <= i < all.len() && skim_score(all[i], q) is Some
}

/// Item `i` comes before item `j`: a higher score, or an equal score and an
/// earlier position in the history.
pub open spec fn ranks_before(all: Seq<Seq<char>>, q: Seq<char>, i: int, j: int) -> bool {
    let a = skim_score(all[i], q)->0;
    let b = skim_score(all[j], q)->0;
    a > b || (a == b && i < j)
}

/// `order` lists every matching item's index once, best first.
pub open spec fn is_ranking(all: Seq<Seq<char>>, q: Seq<char>, order: Seq<int>) -> bool {
    &&& forall|k: int| 0 <= k < order.len() ==> is_hit(all, q, #[trigger] order[k])
    &&& forall|i: int| is_hit(all, q, i) ==> #[trigger] order.contains(i)
    &&& forall|j: int, k: int|
        0 <= j < k < order.len() ==> ranks_before(all, q, #[trigger] order[j], #[trigger] order[k])
}

/// The ranked indices of the items that match `q`.
pub open spec fn ranking(all: Seq<Seq<char>>, q: Seq<char>) -> Seq<int> {
    choose|order: Seq<int>| is_ranking(all, q, order)
}

/// What filtering `all` by `q` down to `limit` items yields: the first items
/// unchanged for a blank query, else the best matches in rank order.
pub open spec fn filter_spec(all: Seq<Seq<char>>, q: Seq<char>, limit: nat) -> Seq<Seq<char>> {
    if is_blank(q) {
        prefix(all, limit)
    } else {
        prefix(ranking(all, q), limit).map_values(|i: int| all[i])
    }
}

/// The ranked order of the items that match a query is unique: two orders
/// that both list every match once, best first, are the same order. So
/// filtering is determined by the history, the query and the limit.
pub proof fn lemma_ranking_unique(
    all: Seq<Seq<char>>,
    q: Seq<char>,
    o1: Seq<int>,
    o2: Seq<int>,
)
    requires
        is_ranking(all, q, o1),
        is_ranking(all, q, o2),
    ensures
        o1 == o2,
{
    lemma_sorted_unique(all, q, o1, o2);
}

proof fn lemma_sorted_unique(all: Seq<Seq<char>>, q: Seq<char>, o1: Seq<int>, o2: Seq<int>)
    requires
        forall|i: int| o1.contains(i) <==> o2.contains(i),
        forall|j: int, k: int|
            0 <= j < k < o1.len() ==> ranks_before(all, q, #[trigger] o1[j], #[trigger] o1[k]),
        forall|j: int, k: int|
            0 <= j < k < o2.len() ==> ranks_before(all, q, #[trigger] o2[j], #[trigger] o2[k]),
    ensures
        o1 == o2,
    decreases o1.len(),
{
    if o1.len() == 0 {
        if o2.len() > 0 {
            assert(o2.contains(o2[0]));
        }
        assert(o1 =~= o2);
    } else {
        assert(o1.contains(o1[0]));
        assert(o2.len() > 0);
        assert(o2.contains(o2[0]));
        let a = choose|m: int| 0 <= m < o2.len() && o2[m] == o1[0];
        let b = choose|m: int| 0 <= m < o1.len() && o1[m] == o2[0];
        if a > 0 && b > 0 {
            assert(ranks_before(all, q, o2[0], o2[a]));
            assert(ranks_before(all, q, o1[0], o1[b]));
            assert(false);
        } else if a > 0 {
            assert(ranks_before(all, q, o2[0], o2[a]));
            assert(false);
        } else if b > 0 {
            assert(ranks_before(all, q, o1[0], o1[b]));
            assert(false);
        }
        assert(o1[0] == o2[0]);
        let r1 = o1.drop_first();
        let r2 = o2.drop_first();
        assert forall|i: int| r1.contains(i) <==> r2.contains(i) by {
            if r1.contains(i) {
                let m = choose|m: int| 0 <= m < r1.len() && r1[m] == i;
                assert(ranks_before(all, q, o1[0], o1[m + 1]));
                assert(o2.contains(i));
                let n = choose|n: int| 0 <= n < o2.len() && o2[n] == i;
                if n == 0 {
                    assert(false);
                }
                assert(r2[n - 1] == i);
            }
            if r2.contains(i) {
                let m = choose|m: int| 0 <= m < r2.len() && r2[m] == i;
                assert(ranks_before(all, q, o2[0], o2[m + 1]));
                assert(o1.contains(i));
                let n = choose|n: int| 0 <= n < o1.len() && o1[n] == i;
                if n == 0 {
                    assert(false);
                }
                assert(r1[n - 1] == i);
            }
        }
        assert forall|j: int, k: int| 0 <= j < k < r1.len() implies ranks_before(
            all,
            q,
            #[trigger] r1[j],
            #[trigger] r1[k],
        ) by {
            assert(ranks_before(all, q, o1[j + 1], o1[k + 1]));
        }
        assert forall|j: int, k: int| 0 <= j < k < r2.len() implies ranks_before(
            all,
            q,
            #[trigger] r2[j],
            #[trigger] r2[k],
        ) by {
            assert(ranks_before(all, q, o2[j + 1], o2[k + 1]));
        }
        lemma_sorted_unique(all, q, r1, r2);
        assert(o1 =~= seq![o1[0]] + r1);
        assert(o2 =~= seq![o2[0]] + r2);
    }
}

/// The history indices held by a ranked list of (index, score) pairs.
pub open spec fn indices(ranked: Seq<(usize, i64)>) -> Seq<int> {
    ranked.map_values(|e: (usize, i64)| e.0 as int)
}

/// Scores every item and ranks the matches, best first, ties in history
/// order.
fn rank_hits(all: &Vec<String>, query: &str) -> (ranked: Vec<(usize, i64)>)
    ensures
        is_ranking(texts(all@), query@, indices(ranked@)),
        forall|i: int|
            0 <= i < all@.len() && is_subsequence(query@, #[trigger] all@[i]@) ==> is_hit(
                texts(all@),
                query@,
                i,
            ),
{
    let ghost a = texts(all@);
    let ghost q = query@;
    let mut ranked: Vec<(usize, i64)> = Vec::new();
    let mut i: usize = 0;
    while i < all.len()
        invariant
            a == texts(all@),
            q == query@,
            i <= all@.len(),
            forall|k: int|
                0 <= k < ranked@.len() ==> {
                    &&& (#[trigger] ranked@[k]).0 < i
                    &&& is_hit(a, q, ranked@[k].0 as int)
                    &&& ranked@[k].1 == skim_score(a[ranked@[k].0 as int], q)->0
                },
            forall|j: int| 0 <= j < i && is_hit(a, q, j) ==> #[trigger] indices(ranked@).contains(j),
            forall|j: int, k: int|
                0 <= j < k < ranked@.len() ==> ranks_before(
                    a,
                    q,
                    (#[trigger] ranked@[j]).0 as int,
                    (#[trigger] ranked@[k]).0 as int,
                ),
            forall|j: int|
                0 <= j < i && is_subsequence(q, #[trigger] all@[j]@) ==> is_hit(a, q, j),
        decreases all@.len() - i,
    {
        let score = skim_match(all[i].as_str(), query);
        assert(a[i as int] == all@[i as int]@);
        match score {
            Some(s) => {
                let mut p: usize = 0;
                while p < ranked.len() && ranked[p].1 >= s
                    invariant
                        p <= ranked@.len(),
                        forall|k: int| 0 <= k < p ==> (#[trigger] ranked@[k]).1 >= s,
                    decreases ranked@.len() - p,
                {
                    p = p + 1;
                }
                assert forall|k: int| p <= k < ranked@.len() implies (#[trigger] ranked@[k]).1 < s by {
                    if k > p {
                        assert(ranks_before(a, q, ranked@[p as int].0 as int, ranked@[k].0 as int));
                    }
                }
                let ghost old_ranked = ranked@;
                ranked.insert(p, (i, s));
                assert(ranked@ =~= old_ranked.subrange(0, p as int).push((i, s)) + old_ranked.subrange(
                    p as int,
                    old_ranked.len() as int,
                ));
                assert forall|k: int| 0 <= k < ranked@.len() implies {
                    &&& (#[trigger] ranked@[k]).0 < i + 1
                    &&& is_hit(a, q, ranked@[k].0 as int)
                    &&& ranked@[k].1 == skim_score(a[ranked@[k].0 as int], q)->0
                } by {
                    if k < p {
                        assert(ranked@[k] == old_ranked[k]);
                    } else if k > p {
                        assert(ranked@[k] == old_ranked[k - 1]);
                    }
                }
                assert forall|j: int, k: int| 0 <= j < k < ranked@.len() implies ranks_before(
                    a,
                    q,
                    (#[trigger] ranked@[j]).0 as int,
                    (#[trigger] ranked@[k]).0 as int,
                ) by {
                    if k < p {
                        assert(ranked@[j] == old_ranked[j]);
                        assert(ranked@[k] == old_ranked[k]);
                    } else if j > p {
                        assert(ranked@[j] == old_ranked[j - 1]);
                        assert(ranked@[k] == old_ranked[k - 1]);
                    } else if j < p && k == p {
                        assert(ranked@[j] == old_ranked[j]);
                    } else if j < p && k > p {
                        assert(ranked@[j] == old_ranked[j]);
                        assert(ranked@[k] == old_ranked[k - 1]);
                    } else {
                        assert(ranked@[k] == old_ranked[k - 1]);
                    }
                }
                assert forall|j: int| 0 <= j < i + 1 && is_hit(a, q, j) implies #[trigger] indices(
                    ranked@,
                ).contains(j) by {
                    if j == i {
                        assert(indices(ranked@)[p as int] == j);
                    } else {
                        assert(indices(old_ranked).contains(j));
                        let m = choose|m: int|
                            0 <= m < old_ranked.len() && indices(old_ranked)[m] == j;
                        if m < p {
                            assert(ranked@[m] == old_ranked[m]);
                            assert(indices(ranked@)[m] == j);
                        } else {
                            assert(ranked@[m + 1] == old_ranked[m]);
                            assert(indices(ranked@)[m + 1] == j);
                        }
                    }
                }
            },
            None => {},
        }
        i = i + 1;
    }
    proof {
        let o = indices(ranked@);
        assert forall|k: int| 0 <= k < o.len() implies is_hit(a, q, #[trigger] o[k]) by {
            assert(o[k] == ranked@[k].0 as int);
        }
        assert forall|j: int, k: int| 0 <= j < k < o.len() implies ranks_before(
            a,
            q,
            #[trigger] o[j],
            #[trigger] o[k],
        ) by {
            assert(o[j] == ranked@[j].0 as int);
            assert(o[k] == ranked@[k].0 as int);
        }
        assert forall|j: int| is_hit(a, q, j) implies #[trigger] o.contains(j) by {
            assert(0 <= j < i);
        }
    }
    ranked
}

/// Filters `all` by `query` and keeps at most `limit` items: the first
/// items, in order, for a blank query; otherwise the matching items, best
/// score first and ties in history order. `all` is left as it is.
pub fn fuzzy_filter(all: &Vec<String>, query: &str, limit: usize) -> (r: Vec<String>)
    ensures
        texts(r@) == filter_spec(texts(all@), query@, limit as nat),
        r@.len() <= limit,
        forall|i: int|
            0 <= i < all@.len() && is_subsequence(query@, #[trigger] all@[i]@) ==> texts(
                r@,
            ).contains(all@[i]@) || r@.len() == limit,
{
    let ghost a = texts(all@);
    let mut r: Vec<String> = Vec::new();
    if is_blank_str(query) {
        let n = if limit < all.len() {
            limit
        } else {
            all.len()
        };
        let mut i: usize = 0;
        while i < n
            invariant
                n <= all@.len(),
                n == limit || n == all@.len(),
                n <= limit,
                i <= n,
                r@.len() == i,
                forall|k: int| 0 <= k < i ==> (#[trigger] r@[k])@ == all@[k]@,
            decreases n - i,
        {
            r.push(all[i].clone());
            i = i + 1;
        }
        assert(texts(r@) =~= prefix(a, limit as nat));
        assert forall|i: int|
            0 <= i < all@.len() && is_subsequence(query@, #[trigger] all@[i]@) implies texts(
                r@,
            ).contains(all@[i]@) || r@.len() == limit by {
            if r@.len() != limit {
                assert(texts(r@)[i] == all@[i]@);
            }
        }
        return r;
    }
    let ranked = rank_hits(all, query);
    let ghost order = indices(ranked@);
    proof {
        lemma_ranking_unique(a, query@, ranking(a, query@), order);
    }
    let n = if limit < ranked.len() {
        limit
    } else {
        ranked.len()
    };
    let mut i: usize = 0;
    while i < n
        invariant
            a == texts(all@),
            order == indices(ranked@),
            is_ranking(a, query@, order),
            n <= ranked@.len(),
            n == limit || n == ranked@.len(),
            n <= limit,
            i <= n,
            r@.len() == i,
            forall|k: int| 0 <= k < i ==> (#[trigger] r@[k])@ == all@[order[k]]@,
        decreases n - i,
    {
        let j = ranked[i].0;
        assert(order[i as int] == j as int);
        assert(is_hit(a, query@, order[i as int]));
        r.push(all[j].clone());
        i = i + 1;
    }
    assert(texts(r@) =~= prefix(order, limit as nat).map_values(|i: int| a[i]));
    assert forall|i: int|
        0 <= i < all@.len() && is_subsequence(query@, #[trigger] all@[i]@) implies texts(
            r@,
        ).contains(all@[i]@) || r@.len() == limit by {
        if r@.len() != limit {
            assert(is_hit(a, query@, i));
            assert(order.contains(i));
            let m = choose|m: int| 0 <= m < order.len() && order[m] == i;
            assert(texts(r@)[m] == all@[i]@);
        }
    }
    r
}

/// A blank query keeps the first `limit` items of the history unchanged and
/// in order.
pub proof fn lemma_blank_query_keeps_order(all: Seq<Seq<char>>, q: Seq<char>, limit: nat)
    requires
        is_blank(q),
    ensures
        filter_spec(all, q, limit).len() == if limit < all.len() { limit } else { all.len() },
        forall|i: int|
            0 <= i < filter_spec(all, q, limit).len() ==> #[trigger] filter_spec(all, q, limit)[i]
                == all[i],
{
}

} // verus!
