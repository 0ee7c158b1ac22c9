//! Median and mode of a list of integers.

use std::collections::HashMap;
use vstd::prelude::*;
use vstd::relations::{sorted_by, total_ordering};
use vstd::seq_lib::lemma_sorted_unique;

verus! {

/// The usual order on `i32`, as a relation.
pub open spec fn at_most() -> spec_fn(i32, i32) -> bool {
    |a: i32, b: i32| a <= b
}

/// Every element is at most the ones after it.
pub open spec fn ascending(s: Seq<i32>) -> bool {
    forall|i: int, j: int| 0 <= i < j < s.len() ==> s[i] <= s[j]
}

/// The elements of `s` in ascending order.
pub open spec fn sorted_of(s: Seq<i32>) -> Seq<i32> {
    s.sort_by(at_most())
}

/// The element in the middle of the sorted list: of `2k + 1` or of `2k`
/// elements it is the one at index `k`, so of an even number the upper
/// of the two in the middle. An empty list has none.
pub open spec fn median_of(s: Seq<i32>) -> Option<i32> {
    if s.len() == 0 {
        None
    } else {
        Some(sorted_of(s)[s.len() as int / 2])
    }
}

/// How often `x` occurs in `s`.
pub open spec fn occurrences(s: Seq<i32>, x: i32) -> nat {
    s.to_multiset().count(x)
}

/// `m` occurs in `s`, and nothing occurs more often.
pub open spec fn is_mode(s: Seq<i32>, m: i32) -> bool {
    &&& occurrences(s, m) > 0
    &&& forall|x: i32| occurrences(s, x) <= occurrences(s, m)
}

/// `sorted_of(s)` is ascending and holds each value as often as `s` does.
pub proof fn lemma_sorted_of(s: Seq<i32>)
    ensures
        ascending(sorted_of(s)),
        sorted_of(s).to_multiset() == s.to_multiset(),
        sorted_of(s).len() == s.len(),
{
    assert(total_ordering(at_most()));
    s.lemma_sort_by_ensures(at_most());
    s.to_multiset_ensures();
    sorted_of(s).to_multiset_ensures();
    let p = sorted_of(s);
    assert forall|i: int, j: int| 0 <= i < j < p.len() implies p[i] <= p[j] by {
        assert(at_most()(p[i], p[j]));
    }
}

/// There is one ascending arrangement of a list: whichever one is at hand
/// is `sorted_of`.
pub proof fn lemma_ascending_is_sorted_of(s: Seq<i32>, p: Seq<i32>)
    requires
        ascending(p),
        p.to_multiset() == s.to_multiset(),
    ensures
        p == sorted_of(s),
{
    lemma_sorted_of(s);
    assert(total_ordering(at_most()));
    assert(sorted_by(p, at_most()));
    assert(sorted_by(sorted_of(s), at_most()));
    lemma_sorted_unique(p, sorted_of(s), at_most());
}

/// `<[i32]>::sort` of std, applied to the whole vector: afterwards the
/// vector is in ascending order and holds each value as often as before.
/// Nothing is proved of this; it is what std documents of `sort`.
#[verifier::external_body]
fn sort_ascending(v: &mut Vec<i32>)
    ensures
        ascending(final(v)@),
        final(v)@.to_multiset() == old(v)@.to_multiset(),
{
    v.sort();
}

/// The median of `vec`, or `None` for an empty list.
pub fn median(vec: &Vec<i32>) -> (middle: Option<i32>)
    ensures
        middle == median_of(vec@),
{
    if vec.len() < 1 {
        None
    } else {
        let mut sorted = vec.clone();
        sort_ascending(&mut sorted);
        proof {
            lemma_ascending_is_sorted_of(vec@, sorted@);
            lemma_sorted_of(vec@);
        }
        let index = sorted.len() / 2;
        Some(sorted[index])
    }
}

/// The counts of the first `n` elements of `s`: a key for each value that
/// occurs among them, with the number of its occurrences.
spec fn tallies(counts: Map<i32, usize>, s: Seq<i32>, n: int) -> bool {
    forall|x: i32|
        {
            let seen = #[trigger] occurrences(s.take(n), x);
            &&& counts.contains_key(x) <==> seen > 0
            &&& counts.contains_key(x) ==> counts[x] == seen
        }
}

/// Taking one more element of `s` adds one occurrence of that element.
proof fn lemma_take_next(s: Seq<i32>, n: int)
    requires
        0 <= n < s.len(),
    ensures
        s.take(n + 1).to_multiset() == s.take(n).to_multiset().insert(s[n]),
        s.take(n + 1).to_multiset().len() == n + 1,
{
    broadcast use vstd::seq_lib::group_to_multiset_ensures;

    assert(s.take(n + 1) == s.take(n).push(s[n]));
}

/// A value that occurs most often in `vec`, or `None` for an empty list.
/// Where several values share the highest count, any of them may come.
pub fn mode(vec: &Vec<i32>) -> (most: Option<i32>)
    ensures
        most is None <==> vec@.len() == 0,
        most matches Some(m) ==> is_mode(vec@, m),
{
    broadcast use vstd::std_specs::hash::group_hash_axioms;
    broadcast use vstd::seq_lib::group_to_multiset_ensures;
    broadcast use vstd::multiset::group_multiset_axioms;

    let mut counts: HashMap<i32, usize> = HashMap::new();
    for i in 0..vec.len()
        invariant
            tallies(counts@, vec@, i as int),
    {
        let elem = vec[i];
        proof {
            lemma_take_next(vec@, i as int);
            assert(occurrences(vec@.take(i as int), elem) <= i);
        }
        let count = counts.entry(elem).or_insert(0);
        *count += 1;
        assert forall|x: i32|
            {
                let seen = #[trigger] occurrences(vec@.take(i + 1), x);
                &&& counts@.contains_key(x) <==> seen > 0
                &&& counts@.contains_key(x) ==> counts@[x] == seen
            } by {
            // one more of `elem`, and as many as before of everything else
            let earlier = occurrences(vec@.take(i as int), x);
        }
    }

    let mut max: (Option<i32>, usize) = (None, 0);
    for pair in it: counts.iter()
        invariant
            tallies(counts@, vec@, vec@.len() as int),
            max.0 is None ==> max.1 == 0,
            max.0 matches Some(k) ==> counts@.contains_key(k) && counts@[k] == max.1,
            forall|k: i32|
                counts@.contains_key(k) ==> #[trigger] it.seq().contains((&k, &counts@[k])),
            forall|j: int| 0 <= j < it.index() ==> *(#[trigger] it.seq()[j]).1 <= max.1,
            it.index() == it.seq().len() ==> forall|k: i32|
                counts@.contains_key(k) ==> #[trigger] counts@[k] <= max.1,
    {
        let (key, value) = pair;
        if *value > max.1 {
            max = (Some(*key), *value);
        }
    }
    proof {
        assert(vec@.take(vec@.len() as int) == vec@);
        if vec@.len() > 0 {
            let first = vec@[0];
            assert(occurrences(vec@, first) > 0);
        }
        if let Some(k) = max.0 {
            assert(occurrences(vec@, k) <= vec@.to_multiset().len());
        }
    }
    max.0
}

} // verus!
