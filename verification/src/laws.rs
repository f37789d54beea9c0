//! Laws the adaptors obey, stated over the same element models their
//! traversal contracts use and proved once and for all.

use vstd::prelude::*;
use vstd::math::{max, min};
use vstd::seq_lib::lemma_flatten_concat;
use crate::traversal::IntrusiveIterator;
use crate::capability::{Emitter, Predicate, Transform};
use crate::mapped::Mapped;
use crate::filter::Filter;
use crate::enumerate::Enumerate;
use crate::skip::{Skip, skip_front};
use crate::take::{Take, take_front};
use crate::chain::Chain;
use crate::flat_map::{FlatMap, spliced};

verus! {

/// Mapping changes no element's place and drops none: a mapped sequence
/// counts exactly as many elements as its upstream.
pub proof fn lemma_map_preserves_count<I, F>(m: Mapped<I, F>) where
    F: Transform,
    I: IntrusiveIterator<F::In>,

    ensures
        m.elems().len() == m.iter.elems().len(),
{
}

/// A partition: the elements a predicate keeps and the elements its
/// negation keeps together count the whole upstream, each exactly once.
pub proof fn lemma_filter_partition<T, I, P, Q>(kept: Filter<I, P>, culled: Filter<I, Q>) where
    I: IntrusiveIterator<T>,
    P: Predicate<T>,
    Q: Predicate<T>,

    requires
        kept.iter == culled.iter,
        forall|t: T| #[trigger] culled.predicate.test(t) == !kept.predicate.test(t),
    ensures
        kept.elems().len() + culled.elems().len() == kept.iter.elems().len(),
{
    let gp = |t: T| kept.predicate.test(t);
    let gq = |t: T| culled.predicate.test(t);
    lemma_partition_len(kept.iter.elems(), gp, gq);
}

/// The two sides of a pointwise-complementary filter pair split every
/// sequence's length between them.
proof fn lemma_partition_len<T>(s: Seq<T>, p: spec_fn(T) -> bool, q: spec_fn(T) -> bool)
    requires
        forall|t: T| #[trigger] q(t) == !p(t),
    ensures
        s.filter(p).len() + s.filter(q).len() == s.len(),
    decreases s.len(),
{
    reveal(Seq::filter);
    if s.len() > 0 {
        lemma_partition_len(s.drop_last(), p, q);
    }
}

/// Taking `n` elements counts `n` of them, or the whole upstream when it
/// is shorter.
pub proof fn lemma_take_count<T, I: IntrusiveIterator<T>>(t: Take<I>)
    ensures
        t.elems().len() == min(t.n as int, t.iter.elems().len() as int),
{
}

/// Skipping `n` elements counts the upstream's length less `n`, and never
/// less than nothing.
pub proof fn lemma_skip_count<T, I: IntrusiveIterator<T>>(s: Skip<I>)
    ensures
        s.elems().len() == max(0, s.iter.elems().len() - s.n as int),
{
}

/// Splitting a sequence at `n` and rejoining the two halves gives the
/// sequence back: its first `n` elements chained with the rest.
pub proof fn lemma_split_rejoin<T, I: IntrusiveIterator<T>>(c: Chain<Take<I>, Skip<I>>)
    requires
        c.one.iter == c.two.iter,
        c.one.n == c.two.n,
    ensures
        c.elems() == c.one.iter.elems(),
{
    let up = c.one.iter.elems();
    let n = c.one.n as int;
    assert(take_front(up, n) + skip_front(up, n) =~= up);
}

/// Enumeration pairs the elements with strictly increasing indexes that
/// start at zero and follow the upstream order exactly, for as far as the
/// index type can count.
pub proof fn lemma_enumerate_pairs<T, I: IntrusiveIterator<T>>(e: Enumerate<I>)
    ensures
        e.elems().len() == min(e.0.elems().len() as int, usize::MAX as int + 1),
        forall|i: int|
            0 <= i < e.elems().len() ==> #[trigger] e.elems()[i] == (i as usize, e.0.elems()[i]),
{
}

/// Splicing flattens in upstream order: cutting the upstream anywhere
/// cuts the spliced sequence into the splice of the first part followed
/// by the splice of the second.
pub proof fn lemma_flat_map_decomposes<I, F>(fm: FlatMap<I, F>, i: int) where
    F: Emitter,
    I: IntrusiveIterator<F::In>,

    requires
        0 <= i <= fm.iter.elems().len(),
    ensures
        fm.elems() == spliced(fm.iter.elems().subrange(0, i), |t: F::In| fm.producer.emitted(t))
            + spliced(
            fm.iter.elems().subrange(i, fm.iter.elems().len() as int),
            |t: F::In| fm.producer.emitted(t),
        ),
{
    let up = fm.iter.elems();
    let g = |t: F::In| fm.producer.emitted(t);
    let a = up.subrange(0, i);
    let b = up.subrange(i, up.len() as int);
    assert(a.map_values(g) + b.map_values(g) =~= up.map_values(g));
    lemma_flatten_concat(a.map_values(g), b.map_values(g));
    assert(spliced(a, g) + spliced(b, g) =~= spliced(up, g));
}

} // verus!
