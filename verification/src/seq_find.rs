//! First-match search over a sequence.
//!
//! Every slot table of the crate claims "the first free slot" or resolves "the
//! entry with this id" by a linear scan. `find_first` is that scan as a spec
//! function: the least index whose element satisfies the predicate, or `-1`
//! when none does.

use vstd::prelude::*;

verus! {

/// The least index of `s` whose element satisfies `p`, or `-1` if none does.
pub open spec fn find_first<A>(s: Seq<A>, p: spec_fn(A) -> bool) -> int
    decreases s.len(),
{
    if s.len() == 0 {
        -1
    } else if p(s[0]) {
        0
    } else {
        let k = find_first(s.subrange(1, s.len() as int), p);
        if k == -1 {
            -1
        } else {
            k + 1
        }
    }
}

/// `find_first` returns a genuine matching index, or `-1` exactly when no
/// element matches.
pub proof fn lemma_find_first_props<A>(s: Seq<A>, p: spec_fn(A) -> bool)
    ensures
        find_first(s, p) == -1 ==> forall|j: int| 0 <= j < s.len() ==> !p(#[trigger] s[j]),
        find_first(s, p) != -1 ==> 0 <= find_first(s, p) < s.len() && p(s[find_first(s, p)]),
    decreases s.len(),
{
    if s.len() > 0 && !p(s[0]) {
        let rest = s.subrange(1, s.len() as int);
        lemma_find_first_props(rest, p);
        if find_first(s, p) == -1 {
            assert forall|j: int| 0 <= j < s.len() implies !p(#[trigger] s[j]) by {
                if j > 0 {
                    assert(s[j] == rest[j - 1]);
                }
            }
        }
    }
}

/// `find_first` returns the first matching index.
pub proof fn lemma_find_first_at<A>(s: Seq<A>, p: spec_fn(A) -> bool, i: int)
    requires
        0 <= i < s.len(),
        p(s[i]),
        forall|j: int| 0 <= j < i ==> !p(#[trigger] s[j]),
    ensures
        find_first(s, p) == i,
    decreases s.len(),
{
    if i > 0 {
        lemma_find_first_at(s.subrange(1, s.len() as int), p, i - 1);
    }
}

/// `find_first` misses when no element matches.
pub proof fn lemma_find_first_none<A>(s: Seq<A>, p: spec_fn(A) -> bool)
    requires
        forall|j: int| 0 <= j < s.len() ==> !p(#[trigger] s[j]),
    ensures
        find_first(s, p) == -1,
    decreases s.len(),
{
    if s.len() > 0 {
        lemma_find_first_none(s.subrange(1, s.len() as int), p);
    }
}

} // verus!
