//! Finding the first element of a sequence that is wanted.

use vstd::prelude::*;

verus! {

/// The index of the first element of `s` that is `wanted`, if there is one.
pub open spec fn first_where<T>(s: Seq<T>, wanted: spec_fn(T) -> bool) -> Option<int>
    decreases s.len(),
{
    if s.len() == 0 {
        None
    } else if wanted(s[0]) {
        Some(0)
    } else {
        match first_where(s.drop_first(), wanted) {
            Some(i) => Some(i + 1),
            None => None,
        }
    }
}

/// `first_where` finds an element that is wanted, and none that is wanted
/// stands before it; it finds none only where no element is wanted.
pub proof fn lemma_first_where<T>(s: Seq<T>, wanted: spec_fn(T) -> bool)
    ensures
        match first_where(s, wanted) {
            Some(i) => 0 <= i < s.len() && wanted(s[i]) && forall|j: int|
                0 <= j < i ==> !wanted(#[trigger] s[j]),
            None => forall|j: int| 0 <= j < s.len() ==> !wanted(#[trigger] s[j]),
        },
    decreases s.len(),
{
    if s.len() > 0 && !wanted(s[0]) {
        let rest = s.drop_first();
        lemma_first_where(rest, wanted);
        match first_where(rest, wanted) {
            Some(i) => {
                assert forall|j: int| 0 <= j < i + 1 implies !wanted(#[trigger] s[j]) by {
                    if j > 0 {
                        assert(s[j] == rest[j - 1]);
                    }
                }
            },
            None => {
                assert forall|j: int| 0 <= j < s.len() implies !wanted(#[trigger] s[j]) by {
                    if j > 0 {
                        assert(s[j] == rest[j - 1]);
                    }
                }
            },
        }
    }
}

/// An element that is wanted and has none that is wanted before it is the
/// one that `first_where` finds.
pub proof fn lemma_first_where_is<T>(s: Seq<T>, wanted: spec_fn(T) -> bool, at: int)
    requires
        0 <= at < s.len(),
        wanted(s[at]),
        forall|j: int| 0 <= j < at ==> !wanted(#[trigger] s[j]),
    ensures
        first_where(s, wanted) == Some(at),
{
    lemma_first_where(s, wanted);
}

/// Where no element is wanted, `first_where` finds none.
pub proof fn lemma_first_where_none<T>(s: Seq<T>, wanted: spec_fn(T) -> bool)
    requires
        forall|j: int| 0 <= j < s.len() ==> !wanted(#[trigger] s[j]),
    ensures
        first_where(s, wanted) is None,
{
    lemma_first_where(s, wanted);
}

/// Two sequences of one length in which the same places are wanted have
/// their first wanted element at the same place.
pub proof fn lemma_first_where_same<S, T>(
    s: Seq<S>,
    wanted_s: spec_fn(S) -> bool,
    t: Seq<T>,
    wanted_t: spec_fn(T) -> bool,
)
    requires
        s.len() == t.len(),
        forall|j: int| 0 <= j < s.len() ==> wanted_s(#[trigger] s[j]) == wanted_t(t[j]),
    ensures
        first_where(s, wanted_s) == first_where(t, wanted_t),
{
    lemma_first_where(s, wanted_s);
    match first_where(s, wanted_s) {
        Some(i) => {
            assert forall|j: int| 0 <= j < i implies !wanted_t(#[trigger] t[j]) by {
                assert(!wanted_s(s[j]));
            }
            lemma_first_where_is(t, wanted_t, i);
        },
        None => {
            assert forall|j: int| 0 <= j < t.len() implies !wanted_t(#[trigger] t[j]) by {
                assert(!wanted_s(s[j]));
            }
            lemma_first_where_none(t, wanted_t);
        },
    }
}

} // verus!
