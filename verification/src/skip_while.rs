//! An adaptor that suppresses elements while a predicate holds, and the
//! boundary element with them.

use vstd::prelude::*;
use crate::boundary::{first_fail, lemma_first_fail, lemma_first_fail_prefix, lemma_first_fail_push};
use crate::traversal::{Consumer, IntrusiveIterator, is_push_prefix};
use crate::capability::Predicate;

verus! {

/// What is left of `s` after suppressing the longest prefix on which `p`
/// holds, and, deliberately, the first element that fails `p` as well.
/// Swallowing that boundary element is a pinned quirk of this adaptor,
/// kept exactly as it has always behaved.
pub open spec fn after_while<T>(s: Seq<T>, p: spec_fn(T) -> bool) -> Seq<T> {
    if first_fail(s, p) == s.len() {
        Seq::<T>::empty()
    } else {
        s.subrange(first_fail(s, p) + 1, s.len() as int)
    }
}

/// A sequence holding another sequence's elements from just past the
/// first one that fails a predicate. While the predicate holds, and at
/// the boundary element itself, it suppresses and answers "continue".
pub struct SkipWhile<I, P> {
    pub iter: I,
    pub predicate: P,
}

/// The consumer `SkipWhile` hands upstream: suppress through the
/// boundary, then forward everything.
#[verifier::reject_recursive_types(T)]
struct SkipWhileConsumer<T, P, C> {
    predicate: P,
    inner: C,
    flag: bool,
    base: Ghost<Seq<T>>,
    hist: Ghost<Seq<T>>,
    tst: Ghost<spec_fn(T) -> bool>,
}

impl<T, P: Predicate<T>, C: Consumer<T>> Consumer<T> for SkipWhileConsumer<T, P, C> {
    type Frame = (Seq<T>, spec_fn(T) -> bool, C::Frame);

    closed spec fn frame(self) -> (Seq<T>, spec_fn(T) -> bool, C::Frame) {
        (self.base@, self.tst@, self.inner.frame())
    }

    closed spec fn inv(self) -> bool {
        &&& self.inner.inv()
        &&& (forall|t: T| #[trigger] self.predicate.test(t) == self.tst@(t))
        &&& self.flag == (first_fail(self.hist@, self.tst@) < self.hist@.len())
        &&& self.inner.taken() == self.base@ + after_while(self.hist@, self.tst@)
    }

    closed spec fn taken(self) -> Seq<T> {
        self.hist@
    }

    closed spec fn stopped(self) -> bool {
        self.inner.stopped()
    }

    fn consume(self, t: T) -> (r: (Self, bool)) {
        let SkipWhileConsumer { mut predicate, inner, flag, base, hist, tst } = self;
        let ghost t0 = t;
        proof {
            lemma_first_fail(hist@, tst@);
            lemma_first_fail_push(hist@, tst@, t0);
        }
        if flag {
            let r = inner.consume(t);
            let w = SkipWhileConsumer {
                predicate,
                inner: r.0,
                flag,
                base,
                hist: Ghost(hist@.push(t0)),
                tst,
            };
            proof {
                assert(after_while(hist@.push(t0), tst@)
                    =~= after_while(hist@, tst@).push(t0));
                assert((base@ + after_while(hist@, tst@)).push(t0)
                    =~= base@ + after_while(hist@, tst@).push(t0));
            }
            (w, r.1)
        } else {
            let still = predicate.check(&t);
            let w = SkipWhileConsumer {
                predicate,
                inner,
                flag: !still,
                base,
                hist: Ghost(hist@.push(t0)),
                tst,
            };
            proof {
                assert(after_while(hist@.push(t0), tst@) =~= Seq::<T>::empty());
                assert(base@ + Seq::<T>::empty() =~= base@);
                assert(base@ + after_while(hist@, tst@) =~= base@);
            }
            (w, false)
        }
    }
}

impl<T, I, P> IntrusiveIterator<T> for SkipWhile<I, P> where
    I: IntrusiveIterator<T>,
    P: Predicate<T>,
 {
    open spec fn elems(self) -> Seq<T> {
        after_while(self.iter.elems(), |t: T| self.predicate.test(t))
    }

    fn traverse<C: Consumer<T>>(self, consumer: C) -> (out: C) {
        let ghost self0 = self;
        let ghost c0 = consumer;
        let ghost up = self.iter.elems();
        let ghost gp = |t: T| self.predicate.test(t);
        let w = SkipWhileConsumer {
            predicate: self.predicate,
            inner: consumer,
            flag: false,
            base: Ghost(c0.taken()),
            hist: Ghost(Seq::empty()),
            tst: Ghost(gp),
        };
        let ghost w0 = w;
        proof {
            assert(c0.taken() + after_while(Seq::<T>::empty(), gp) =~= c0.taken());
        }
        let w2 = self.iter.traverse(w);
        proof {
            let k = choose|k: int| is_push_prefix(w0, w2, up, k);
            let pre = up.subrange(0, k);
            assert(w2.hist@ =~= pre);
            lemma_first_fail(up, gp);
            lemma_first_fail_prefix(up, gp, k);
            let b = first_fail(up, gp);
            let m = after_while(pre, gp).len() as int;
            assert(self0.elems().subrange(0, m) =~= after_while(pre, gp));
            if m < self0.elems().len() {
                assert(b < up.len());
                if first_fail(pre, gp) == pre.len() {
                    assert(k <= b);
                    assert(k < up.len());
                } else {
                    assert(k - b - 1 < up.len() - b - 1);
                }
                assert(w2.stopped());
            }
            assert(is_push_prefix(c0, w2.inner, self0.elems(), m));
        }
        w2.inner
    }
}

} // verus!
