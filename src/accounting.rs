use vstd::prelude::*;

verus! {

/// Number of elements of `s` that satisfy `f`.
pub open spec fn count_where<T>(s: Seq<T>, f: spec_fn(T) -> bool) -> nat
    decreases s.len(),
{
    if s.len() == 0 {
        0
    } else {
        count_where(s.drop_last(), f) + if f(s.last()) { 1nat } else { 0nat }
    }
}

/// Sum of `w` over the elements of `s` that satisfy `f`.
pub open spec fn sum_where<T>(s: Seq<T>, f: spec_fn(T) -> bool, w: spec_fn(T) -> nat) -> nat
    decreases s.len(),
{
    if s.len() == 0 {
        0
    } else {
        sum_where(s.drop_last(), f, w) + if f(s.last()) { w(s.last()) } else { 0nat }
    }
}

pub proof fn lemma_count_push<T>(s: Seq<T>, x: T, f: spec_fn(T) -> bool)
    ensures
        count_where(s.push(x), f) == count_where(s, f) + if f(x) { 1nat } else { 0nat },
{
    assert(s.push(x).drop_last() =~= s);
}

pub proof fn lemma_count_update<T>(s: Seq<T>, i: int, x: T, f: spec_fn(T) -> bool)
    requires
        0 <= i < s.len(),
        f(x) == f(s[i]),
    ensures
        count_where(s.update(i, x), f) == count_where(s, f),
    decreases s.len(),
{
    if i == s.len() - 1 {
        assert(s.update(i, x).drop_last() =~= s.drop_last());
    } else {
        lemma_count_update(s.drop_last(), i, x, f);
        assert(s.update(i, x).drop_last() =~= s.drop_last().update(i, x));
    }
}

pub proof fn lemma_count_none<T>(s: Seq<T>, f: spec_fn(T) -> bool)
    requires
        forall|i: int| 0 <= i < s.len() ==> !f(#[trigger] s[i]),
    ensures
        count_where(s, f) == 0,
    decreases s.len(),
{
    if s.len() > 0 {
        lemma_count_none(s.drop_last(), f);
    }
}

pub proof fn lemma_sum_push<T>(s: Seq<T>, x: T, f: spec_fn(T) -> bool, w: spec_fn(T) -> nat)
    ensures
        sum_where(s.push(x), f, w) == sum_where(s, f, w) + if f(x) { w(x) } else { 0nat },
{
    assert(s.push(x).drop_last() =~= s);
}

pub proof fn lemma_sum_none<T>(s: Seq<T>, f: spec_fn(T) -> bool, w: spec_fn(T) -> nat)
    requires
        forall|i: int| 0 <= i < s.len() ==> !f(#[trigger] s[i]),
    ensures
        sum_where(s, f, w) == 0,
    decreases s.len(),
{
    if s.len() > 0 {
        lemma_sum_none(s.drop_last(), f, w);
    }
}

/// Summing over a predicate that splits into three disjoint cases gives the
/// sum of the three partial sums.
pub proof fn lemma_sum_split3<T>(
    s: Seq<T>,
    f: spec_fn(T) -> bool,
    f1: spec_fn(T) -> bool,
    f2: spec_fn(T) -> bool,
    f3: spec_fn(T) -> bool,
    w: spec_fn(T) -> nat,
)
    requires
        forall|x: T|
            #[trigger] f(x) == (f1(x) || f2(x) || f3(x)) && !(f1(x) && f2(x)) && !(f1(x) && f3(x))
                && !(f2(x) && f3(x)),
    ensures
        sum_where(s, f, w) == sum_where(s, f1, w) + sum_where(s, f2, w) + sum_where(s, f3, w),
    decreases s.len(),
{
    if s.len() > 0 {
        lemma_sum_split3(s.drop_last(), f, f1, f2, f3, w);
        let x = s.last();
        assert(f(x) == (f1(x) || f2(x) || f3(x)));
    }
}

/// Sum of a sequence of percentages.
pub open spec fn sum_of(s: Seq<u8>) -> int
    decreases s.len(),
{
    if s.len() == 0 {
        0
    } else {
        sum_of(s.drop_last()) + s.last()
    }
}

pub proof fn lemma_sum_of_prefix(s: Seq<u8>, i: int)
    requires
        0 <= i <= s.len(),
    ensures
        0 <= sum_of(s.take(i)) <= sum_of(s),
    decreases s.len(),
{
    if i == s.len() {
        assert(s.take(i) =~= s);
        if s.len() > 0 {
            lemma_sum_of_prefix(s.drop_last(), i - 1);
        }
    } else {
        lemma_sum_of_prefix(s.drop_last(), i);
        assert(s.drop_last().take(i) =~= s.take(i));
    }
}

pub proof fn lemma_sum_of_step(s: Seq<u8>, i: int)
    requires
        0 <= i < s.len(),
    ensures
        sum_of(s.take(i + 1)) == sum_of(s.take(i)) + s[i],
{
    assert(s.take(i + 1).drop_last() =~= s.take(i));
}

} // verus!
