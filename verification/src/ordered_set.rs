//! Ordered sets of texts: lists in which no value occurs twice and first-seen order is kept.

use vstd::prelude::*;
use vstd::seq_lib::lemma_seq_contains_after_push;

verus! {

/// `s` without its repeats: of each value the first occurrence stays, in the order of `s`.
pub open spec fn distinct<A>(s: Seq<A>) -> Seq<A>
    decreases s.len(),
{
    if s.len() == 0 {
        Seq::empty()
    } else {
        with_member(distinct(s.drop_last()), s.last())
    }
}

/// `set` with `value` added at the end, unless it is a member already.
pub open spec fn with_member<A>(set: Seq<A>, value: A) -> Seq<A> {
    if set.contains(value) {
        set
    } else {
        set.push(value)
    }
}

/// Dropping repeats from a list extended by one value adds that value as a member.
pub proof fn distinct_of_push<A>(s: Seq<A>, value: A)
    ensures
        distinct(s.push(value)) == with_member(distinct(s), value),
{
    assert(s.push(value).drop_last() =~= s);
}

/// What [`distinct`] returns holds no value twice, and holds exactly the values of its
/// argument.
pub proof fn distinct_is_a_set<A>(s: Seq<A>)
    ensures
        distinct(s).no_duplicates(),
        forall|value: A| distinct(s).contains(value) <==> s.contains(value),
    decreases s.len(),
{
    if s.len() > 0 {
        let front = s.drop_last();
        let set = distinct(front);
        distinct_is_a_set(front);
        assert(s =~= front.push(s.last()));
        assert forall|value: A| distinct(s).contains(value) <==> s.contains(value) by {
            lemma_seq_contains_after_push(front, s.last(), value);
            lemma_seq_contains_after_push(set, s.last(), value);
        }
        if !set.contains(s.last()) {
            assert forall|i: int, j: int|
                0 <= i < set.len() + 1 && 0 <= j < set.len() + 1 && i != j implies set.push(
                s.last(),
            )[i] != set.push(s.last())[j] by {
                if i < set.len() && j < set.len() {
                    assert(set[i] != set[j]);
                } else if i < set.len() {
                    assert(set[i] != s.last());
                } else {
                    assert(set[j] != s.last());
                }
            }
        }
    }
}

/// A list that holds no value twice is its own ordered set.
pub proof fn distinct_of_a_set<A>(s: Seq<A>)
    requires
        s.no_duplicates(),
    ensures
        distinct(s) == s,
    decreases s.len(),
{
    if s.len() > 0 {
        let front = s.drop_last();
        distinct_of_a_set(front);
        if front.contains(s.last()) {
            let i = choose|i: int| 0 <= i < front.len() && front[i] == s.last();
            assert(s[i] == s[s.len() - 1]);
        }
        assert(front.push(s.last()) =~= s);
    }
}

/// Dropping repeats twice is dropping them once.
pub proof fn distinct_is_idempotent<A>(s: Seq<A>)
    ensures
        distinct(distinct(s)) == distinct(s),
{
    distinct_is_a_set(s);
    distinct_of_a_set(distinct(s));
}

/// Whether `list` holds `value`.
pub fn holds(list: &Vec<String>, value: &String) -> (found: bool)
    ensures
        found == list.deep_view().contains(value@),
{
    let mut i: usize = 0;
    while i < list.len()
        invariant
            i <= list.len(),
            forall|k: int| 0 <= k < i ==> list.deep_view()[k] != value@,
        decreases list.len() - i,
    {
        if list[i] == *value {
            assert(list.deep_view()[i as int] == value@);
            return true;
        }
        i += 1;
    }
    false
}

/// Adds `value` at the end of `list`, unless `list` holds it already.
pub fn insert(list: &mut Vec<String>, value: String)
    ensures
        final(list).deep_view() == with_member(old(list).deep_view(), value@),
{
    if !holds(list, &value) {
        list.push(value);
        assert(list.deep_view() =~= old(list).deep_view().push(value@));
    }
}

} // verus!
