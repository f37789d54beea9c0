//! The boundary where a predicate first fails along a sequence: the spec
//! both while-adaptors cut their sequences at.

use vstd::prelude::*;
use vstd::math::min;

verus! {

/// The index of the first element of `s` that fails `p`, or `s.len()`
/// when every element holds.
pub open spec fn first_fail<T>(s: Seq<T>, p: spec_fn(T) -> bool) -> int
    decreases s.len(),
{
    if s.len() == 0 {
        0
    } else if !p(s[0]) {
        0
    } else {
        1 + first_fail(s.drop_first(), p)
    }
}

/// The boundary lies in the sequence, everything before it holds, and the
/// element at it (when there is one) fails.
pub proof fn lemma_first_fail<T>(s: Seq<T>, p: spec_fn(T) -> bool)
    ensures
        0 <= first_fail(s, p) <= s.len(),
        forall|i: int| 0 <= i < first_fail(s, p) ==> p(#[trigger] s[i]),
        first_fail(s, p) < s.len() ==> !p(s[first_fail(s, p)]),
    decreases s.len(),
{
    if s.len() > 0 && p(s[0]) {
        lemma_first_fail(s.drop_first(), p);
        assert forall|i: int| 0 <= i < first_fail(s, p) implies p(#[trigger] s[i]) by {
            if i > 0 {
                assert(s.drop_first()[i - 1] == s[i]);
            }
        }
        if first_fail(s, p) < s.len() {
            assert(s.drop_first()[first_fail(s.drop_first(), p)] == s[first_fail(s, p)]);
        }
    }
}

/// Appending moves the boundary only when no element had failed yet.
pub proof fn lemma_first_fail_push<T>(s: Seq<T>, p: spec_fn(T) -> bool, t: T)
    ensures
        first_fail(s.push(t), p) == if first_fail(s, p) == s.len() {
            if p(t) {
                s.len() as int + 1
            } else {
                s.len() as int
            }
        } else {
            first_fail(s, p)
        },
    decreases s.len(),
{
    reveal_with_fuel(first_fail, 3);
    lemma_first_fail(s, p);
    if s.len() == 0 {
        assert(s.push(t)[0] == t);
        if !p(t) {
            assert(first_fail(s.push(t), p) == 0);
        } else {
            assert(s.push(t).drop_first() =~= Seq::<T>::empty());
        }
    } else {
        assert(s.push(t)[0] == s[0]);
        assert(s.push(t).drop_first() =~= s.drop_first().push(t));
        lemma_first_fail_push(s.drop_first(), p, t);
        if p(s[0]) {
            assert(first_fail(s, p) == 1 + first_fail(s.drop_first(), p));
            assert(first_fail(s.push(t), p) == 1 + first_fail(s.drop_first().push(t), p));
        } else {
            assert(first_fail(s.push(t), p) == 0);
            assert(first_fail(s, p) == 0);
        }
    }
}

/// The boundary of a prefix is the boundary of the whole, clipped to the
/// prefix.
pub proof fn lemma_first_fail_prefix<T>(s: Seq<T>, p: spec_fn(T) -> bool, k: int)
    requires
        0 <= k <= s.len(),
    ensures
        first_fail(s.subrange(0, k), p) == min(first_fail(s, p), k),
{
    let pre = s.subrange(0, k);
    let a = first_fail(pre, p);
    let b = first_fail(s, p);
    lemma_first_fail(pre, p);
    lemma_first_fail(s, p);
    if a < min(b, k) {
        assert(p(s[a]));
        assert(!p(pre[a]));
    }
    if min(b, k) < a {
        assert(b < k);
        assert(p(pre[b]));
        assert(!p(s[b]));
    }
}

} // verus!
