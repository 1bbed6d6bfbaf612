//! Two notions on sequences that the contracts share: the first place that
//! holds, and the values that are present.

use vstd::prelude::*;

verus! {

/// The index of the first `true` in `s`, or the length of `s` if there is
/// none.
pub open spec fn first_true(s: Seq<bool>) -> int
    decreases s.len(),
{
    if s.len() == 0 {
        0
    } else if s[0] {
        0
    } else {
        1 + first_true(s.drop_first())
    }
}

/// `first_true` lies within the sequence or just behind it, nothing before
/// it is `true`, and where it lies within, it points at a `true`.
pub proof fn lemma_first_true_bounds(s: Seq<bool>)
    ensures
        0 <= first_true(s) <= s.len(),
        forall|j: int| 0 <= j < first_true(s) ==> !s[j],
        first_true(s) < s.len() ==> s[first_true(s)],
    decreases s.len(),
{
    if s.len() > 0 && !s[0] {
        let rest = s.drop_first();
        lemma_first_true_bounds(rest);
        assert forall|j: int| 0 <= j < first_true(s) implies !s[j] by {
            if j > 0 {
                assert(s[j] == rest[j - 1]);
            }
        }
        assert(first_true(s) < s.len() ==> s[first_true(s)] == rest[first_true(rest)]);
    }
}

/// An index with nothing `true` before it, which points at a `true` or
/// stands at the end, is `first_true`.
pub proof fn lemma_first_true_is(s: Seq<bool>, i: int)
    requires
        0 <= i <= s.len(),
        forall|j: int| 0 <= j < i ==> !s[j],
        i < s.len() ==> s[i],
    ensures
        first_true(s) == i,
    decreases s.len(),
{
    if i > 0 {
        let rest = s.drop_first();
        assert(!s[0]);
        assert forall|j: int| 0 <= j < i - 1 implies !rest[j] by {
            assert(rest[j] == s[j + 1]);
        }
        if i < s.len() {
            assert(rest[i - 1] == s[i]);
        }
        lemma_first_true_is(rest, i - 1);
    }
}

/// The values that the entries of `s` hold, in order, the empty entries
/// left out.
pub open spec fn present<T>(s: Seq<Option<T>>) -> Seq<T>
    decreases s.len(),
{
    if s.len() == 0 {
        Seq::empty()
    } else {
        match s.last() {
            Some(x) => present(s.drop_last()).push(x),
            None => present(s.drop_last()),
        }
    }
}

/// `present` of a sequence grown by one entry.
pub proof fn lemma_present_push<T>(s: Seq<Option<T>>, x: Option<T>)
    ensures
        present(s.push(x)) == match x {
            Some(v) => present(s).push(v),
            None => present(s),
        },
{
    assert(s.push(x).drop_last() =~= s);
}

/// Where every entry is empty, nothing is present.
pub proof fn lemma_present_none<T>(s: Seq<Option<T>>)
    requires
        forall|i: int| 0 <= i < s.len() ==> s[i] is None,
    ensures
        present(s) == Seq::<T>::empty(),
    decreases s.len(),
{
    if s.len() > 0 {
        lemma_present_none(s.drop_last());
    }
}

/// Every value that is present comes from an entry that holds it.
pub proof fn lemma_present_from<T>(s: Seq<Option<T>>, k: int)
    requires
        0 <= k < present(s).len(),
    ensures
        exists|i: int| 0 <= i < s.len() && s[i] == Some(present(s)[k]),
    decreases s.len(),
{
    if s.len() > 0 {
        let rest = s.drop_last();
        if s.last() is Some && k == present(rest).len() {
            assert(s[s.len() - 1] == Some(present(s)[k]));
        } else {
            lemma_present_from(rest, k);
            let i = choose|i: int| 0 <= i < rest.len() && rest[i] == Some(present(rest)[k]);
            assert(s[i] == Some(present(s)[k]));
        }
    }
}

/// Every value that an entry holds is present.
pub proof fn lemma_present_has<T>(s: Seq<Option<T>>, i: int)
    requires
        0 <= i < s.len(),
        s[i] is Some,
    ensures
        present(s).contains(s[i]->Some_0),
    decreases s.len(),
{
    let rest = s.drop_last();
    if i == s.len() - 1 {
        assert(present(s)[present(rest).len() as int] == s[i]->Some_0);
    } else {
        lemma_present_has(rest, i);
        let k = choose|k: int| 0 <= k < present(rest).len() && present(rest)[k] == rest[i]->Some_0;
        assert(present(s)[k] == s[i]->Some_0);
    }
}

/// Where exactly one entry holds a value, that value alone is present.
pub proof fn lemma_present_single<T>(s: Seq<Option<T>>, i: int)
    requires
        0 <= i < s.len(),
        s[i] is Some,
        forall|j: int| 0 <= j < s.len() && j != i ==> s[j] is None,
    ensures
        present(s) == seq![s[i]->Some_0],
    decreases s.len(),
{
    let rest = s.drop_last();
    if i == s.len() - 1 {
        lemma_present_none(rest);
        assert(present(s) =~= seq![s[i]->Some_0]);
    } else {
        lemma_present_single(rest, i);
    }
}

/// `present` of the images of a sequence is what `filter_map` makes of the
/// sequence.
pub proof fn lemma_present_is_filter_map<A, B>(s: Seq<A>, f: spec_fn(A) -> Option<B>)
    ensures
        present(Seq::new(s.len(), |i: int| f(s[i]))) == s.filter_map(f),
    decreases s.len(),
{
    let images = Seq::new(s.len(), |i: int| f(s[i]));
    if s.len() > 0 {
        let rest = s.drop_last();
        lemma_present_is_filter_map(rest, f);
        assert(images.drop_last() =~= Seq::new(rest.len(), |i: int| f(rest[i])));
        assert(images.last() == f(s.last()));
        match f(s.last()) {
            Some(x) => {
                assert(rest.filter_map(f) + seq![x] =~= rest.filter_map(f).push(x));
            },
            None => {},
        }
    }
}

} // verus!
