//! Lexicographic order on text, and sorting by it.

use vstd::prelude::*;
use vstd::relations::sorted_by;
use vstd::relations::total_ordering;

use crate::text::{chars_of, views};

verus! {

/// Lexicographic order by code points, in which `String`s are ordered.
pub open spec fn text_le(a: Seq<char>, b: Seq<char>) -> bool
    decreases a.len(),
{
    if a.len() == 0 {
        true
    } else if b.len() == 0 {
        false
    } else if a[0] != b[0] {
        a[0] < b[0]
    } else {
        text_le(a.drop_first(), b.drop_first())
    }
}

proof fn lemma_text_le_reflexive(a: Seq<char>)
    ensures
        text_le(a, a),
    decreases a.len(),
{
    if a.len() != 0 {
        lemma_text_le_reflexive(a.drop_first());
    }
}

proof fn lemma_text_le_total(a: Seq<char>, b: Seq<char>)
    ensures
        text_le(a, b) || text_le(b, a),
    decreases a.len(),
{
    if a.len() != 0 && b.len() != 0 && a[0] == b[0] {
        lemma_text_le_total(a.drop_first(), b.drop_first());
    }
}

proof fn lemma_text_le_antisymmetric(a: Seq<char>, b: Seq<char>)
    requires
        text_le(a, b),
        text_le(b, a),
    ensures
        a == b,
    decreases a.len(),
{
    if a.len() == 0 || b.len() == 0 {
        assert(a =~= b);
    } else {
        lemma_text_le_antisymmetric(a.drop_first(), b.drop_first());
        assert(a =~= seq![a[0]] + a.drop_first());
        assert(b =~= seq![b[0]] + b.drop_first());
    }
}

proof fn lemma_text_le_transitive(a: Seq<char>, b: Seq<char>, c: Seq<char>)
    requires
        text_le(a, b),
        text_le(b, c),
    ensures
        text_le(a, c),
    decreases a.len(),
{
    if a.len() != 0 && b.len() != 0 && c.len() != 0 && a[0] == b[0] && b[0] == c[0] {
        lemma_text_le_transitive(a.drop_first(), b.drop_first(), c.drop_first());
    }
}

/// [`text_le`] is a total order.
pub proof fn lemma_text_le_total_ordering()
    ensures
        total_ordering(|a: Seq<char>, b: Seq<char>| text_le(a, b)),
{
    let le = |a: Seq<char>, b: Seq<char>| text_le(a, b);
    assert forall|a: Seq<char>| #[trigger] le(a, a) by {
        lemma_text_le_reflexive(a);
    }
    assert forall|a: Seq<char>, b: Seq<char>| #[trigger] le(a, b) && #[trigger] le(b, a) implies a
        == b by {
        lemma_text_le_antisymmetric(a, b);
    }
    assert forall|a: Seq<char>, b: Seq<char>, c: Seq<char>| #[trigger]
        le(a, b) && #[trigger] le(b, c) implies le(a, c) by {
        lemma_text_le_transitive(a, b, c);
    }
    assert forall|a: Seq<char>, b: Seq<char>| #[trigger] le(a, b) || #[trigger] le(b, a) by {
        lemma_text_le_total(a, b);
    }
}

/// Whether each part is no greater than those behind it.
pub open spec fn ascending(parts: Seq<Seq<char>>) -> bool {
    forall|i: int, j: int| 0 <= i < j < parts.len() ==> text_le(#[trigger] parts[i], #[trigger] parts[j])
}

/// The same parts in ascending order.
pub open spec fn sorted(parts: Seq<Seq<char>>) -> Seq<Seq<char>> {
    parts.sort_by(|a: Seq<char>, b: Seq<char>| text_le(a, b))
}

/// What [`sorted`] is: ascending, with the same parts as often.
pub proof fn lemma_sorted(parts: Seq<Seq<char>>)
    ensures
        ascending(sorted(parts)),
        sorted(parts).to_multiset() == parts.to_multiset(),
        sorted(parts).len() == parts.len(),
{
    broadcast use vstd::seq_lib::group_to_multiset_ensures;

    let le = |a: Seq<char>, b: Seq<char>| text_le(a, b);
    lemma_text_le_total_ordering();
    parts.lemma_sort_by_ensures(le);
    let out = parts.sort_by(le);
    assert(sorted_by(out, le));
    assert forall|i: int, j: int| 0 <= i < j < out.len() implies text_le(
        #[trigger] out[i],
        #[trigger] out[j],
    ) by {
        assert(le(out[i], out[j]));
    }
    assert(out.to_multiset().len() == parts.to_multiset().len());
}

/// Two ascending sequences with the same parts as often are equal.
pub proof fn lemma_ascending_unique(a: Seq<Seq<char>>, b: Seq<Seq<char>>)
    requires
        ascending(a),
        ascending(b),
        a.to_multiset() == b.to_multiset(),
    ensures
        a == b,
    decreases a.len(),
{
    vstd::seq_lib::to_multiset_len(a);
    vstd::seq_lib::to_multiset_len(b);
    if a.len() == 0 {
        assert(a =~= b);
    } else {
        assert(b.contains(a[0])) by {
            assert(a.contains(a[0]));
            vstd::seq_lib::to_multiset_contains(a, a[0]);
            vstd::seq_lib::to_multiset_contains(b, a[0]);
        }
        assert(a.contains(b[0])) by {
            assert(b.contains(b[0]));
            vstd::seq_lib::to_multiset_contains(b, b[0]);
            vstd::seq_lib::to_multiset_contains(a, b[0]);
        }
        let j = choose|j: int| 0 <= j < b.len() && b[j] == a[0];
        let i = choose|i: int| 0 <= i < a.len() && a[i] == b[0];
        lemma_text_le_reflexive(a[0]);
        lemma_text_le_reflexive(b[0]);
        assert(text_le(b[0], a[0]));
        assert(text_le(a[0], b[0]));
        lemma_text_le_antisymmetric(a[0], b[0]);
        vstd::seq_lib::to_multiset_remove(a, 0);
        vstd::seq_lib::to_multiset_remove(b, 0);
        lemma_ascending_unique(a.remove(0), b.remove(0));
        assert(a =~= seq![a[0]] + a.remove(0));
        assert(b =~= seq![b[0]] + b.remove(0));
    }
}

/// [`sorted`] does not depend on the order of the parts.
pub proof fn lemma_sorted_order_free(a: Seq<Seq<char>>, b: Seq<Seq<char>>)
    requires
        a.to_multiset() == b.to_multiset(),
    ensures
        sorted(a) == sorted(b),
{
    lemma_sorted(a);
    lemma_sorted(b);
    lemma_ascending_unique(sorted(a), sorted(b));
}

/// Whether `a` is no greater than `b` in [`text_le`].
pub fn is_text_le(a: &str, b: &str) -> (le: bool)
    ensures
        le == text_le(a@, b@),
{
    let left = chars_of(a);
    let right = chars_of(b);
    let mut i: usize = 0;
    assert(left@.skip(0) =~= left@);
    assert(right@.skip(0) =~= right@);
    while i < left.len() && i < right.len() && left[i] == right[i]
        invariant
            i <= left@.len(),
            i <= right@.len(),
            text_le(left@, right@) == text_le(left@.skip(i as int), right@.skip(i as int)),
        decreases left@.len() - i,
    {
        assert(left@.skip(i as int).drop_first() =~= left@.skip(i + 1));
        assert(right@.skip(i as int).drop_first() =~= right@.skip(i + 1));
        i = i + 1;
    }
    if i >= left.len() {
        true
    } else if i >= right.len() {
        false
    } else {
        left[i] < right[i]
    }
}

/// Puts `part` behind every smaller or equal part of an ascending list.
fn insert_ascending(parts: &mut Vec<String>, part: String)
    requires
        ascending(views(old(parts)@)),
    ensures
        ascending(views(final(parts)@)),
        views(final(parts)@).to_multiset() == views(old(parts)@).to_multiset().insert(part@),
{
    broadcast use vstd::seq_lib::to_multiset_insert;

    let ghost before = views(parts@);
    let mut at: usize = 0;
    while at < parts.len() && is_text_le(parts[at].as_str(), part.as_str())
        invariant
            at <= parts@.len(),
            before == views(parts@),
            forall|i: int| 0 <= i < at ==> text_le(#[trigger] before[i], part@),
        decreases parts@.len() - at,
    {
        assert(before[at as int] == parts@[at as int]@);
        at = at + 1;
    }
    proof {
        if at < parts@.len() {
            assert(before[at as int] == parts@[at as int]@);
            lemma_text_le_total(before[at as int], part@);
        }
    }
    let ghost value = part@;
    parts.insert(at, part);
    let ghost after = views(parts@);
    assert(after =~= before.insert(at as int, value));
    proof {
        assert forall|i: int, j: int| 0 <= i < j < after.len() implies text_le(
            #[trigger] after[i],
            #[trigger] after[j],
        ) by {
            let a = at as int;
            if j < a {
                assert(text_le(before[i], before[j]));
            } else if j == a {
                assert(text_le(before[i], value));
            } else if i < a {
                assert(text_le(before[i], before[j - 1]));
            } else if i == a {
                if j - 1 > a {
                    assert(text_le(before[a], before[j - 1]));
                    lemma_text_le_transitive(value, before[a], before[j - 1]);
                }
            } else {
                assert(text_le(before[i - 1], before[j - 1]));
            }
        }
    }
}

/// Sorts parts: the result is [`sorted`].
pub fn sort(parts: Vec<String>) -> (out: Vec<String>)
    ensures
        views(out@) == sorted(views(parts@)),
{
    let mut out: Vec<String> = Vec::new();
    let mut i: usize = 0;
    assert(views(out@) =~= views(parts@).take(0));
    while i < parts.len()
        invariant
            i <= parts@.len(),
            ascending(views(out@)),
            views(out@).to_multiset() == views(parts@).take(i as int).to_multiset(),
        decreases parts@.len() - i,
    {
        insert_ascending(&mut out, parts[i].clone());
        proof {
            let done = views(parts@).take(i as int);
            assert(views(parts@).take(i + 1) =~= done.push(parts@[i as int]@));
            vstd::seq_lib::to_multiset_build(done, parts@[i as int]@);
        }
        i = i + 1;
    }
    proof {
        assert(views(parts@).take(i as int) =~= views(parts@));
        lemma_sorted(views(parts@));
        lemma_ascending_unique(views(out@), sorted(views(parts@)));
    }
    out
}

} // verus!
