//! An adaptor that forwards elements while a predicate holds.

use vstd::prelude::*;
use vstd::math::min;
use crate::boundary::{first_fail, lemma_first_fail, lemma_first_fail_prefix, lemma_first_fail_push};
use crate::traversal::{Consumer, IntrusiveIterator, is_push_prefix};
use crate::capability::Predicate;

verus! {

/// The longest prefix of `s` on which `p` holds throughout.
pub open spec fn while_front<T>(s: Seq<T>, p: spec_fn(T) -> bool) -> Seq<T> {
    s.subrange(0, first_fail(s, p))
}

/// A sequence holding another sequence's elements up to, and not
/// including, the first one that fails a predicate. At that element it
/// answers "stop" upstream, ending the traversal for good.
pub struct TakeWhile<I, P> {
    pub iter: I,
    pub predicate: P,
}

/// The consumer `TakeWhile` hands upstream: forward while the predicate
/// holds, then demand a stop.
#[verifier::reject_recursive_types(T)]
struct TakeWhileConsumer<T, P, C> {
    predicate: P,
    inner: C,
    base: Ghost<Seq<T>>,
    hist: Ghost<Seq<T>>,
    tst: Ghost<spec_fn(T) -> bool>,
}

impl<T, P: Predicate<T>, C: Consumer<T>> Consumer<T> for TakeWhileConsumer<T, P, C> {
    type Frame = (Seq<T>, spec_fn(T) -> bool, C::Frame);

    closed spec fn frame(self) -> (Seq<T>, spec_fn(T) -> bool, C::Frame) {
        (self.base@, self.tst@, self.inner.frame())
    }

    closed spec fn inv(self) -> bool {
        &&& self.inner.inv()
        &&& (forall|t: T| #[trigger] self.predicate.test(t) == self.tst@(t))
        &&& self.inner.taken() == self.base@ + while_front(self.hist@, self.tst@)
    }

    closed spec fn taken(self) -> Seq<T> {
        self.hist@
    }

    closed spec fn stopped(self) -> bool {
        self.inner.stopped() || first_fail(self.hist@, self.tst@) < self.hist@.len()
    }

    fn consume(self, t: T) -> (r: (Self, bool)) {
        let TakeWhileConsumer { mut predicate, inner, base, hist, tst } = self;
        let ghost t0 = t;
        proof {
            lemma_first_fail(hist@, tst@);
            lemma_first_fail_push(hist@, tst@, t0);
        }
        let keep = predicate.check(&t);
        if keep {
            let r = inner.consume(t);
            let w = TakeWhileConsumer {
                predicate,
                inner: r.0,
                base,
                hist: Ghost(hist@.push(t0)),
                tst,
            };
            proof {
                assert(while_front(hist@.push(t0), tst@)
                    =~= while_front(hist@, tst@).push(t0));
                assert((base@ + while_front(hist@, tst@)).push(t0)
                    =~= base@ + while_front(hist@, tst@).push(t0));
            }
            (w, r.1)
        } else {
            let w = TakeWhileConsumer {
                predicate,
                inner,
                base,
                hist: Ghost(hist@.push(t0)),
                tst,
            };
            proof {
                assert(while_front(hist@.push(t0), tst@) =~= while_front(hist@, tst@));
            }
            (w, true)
        }
    }
}

impl<T, I, P> IntrusiveIterator<T> for TakeWhile<I, P> where
    I: IntrusiveIterator<T>,
    P: Predicate<T>,
 {
    open spec fn elems(self) -> Seq<T> {
        while_front(self.iter.elems(), |t: T| self.predicate.test(t))
    }

    fn traverse<C: Consumer<T>>(self, consumer: C) -> (out: C) {
        let ghost self0 = self;
        let ghost c0 = consumer;
        let ghost up = self.iter.elems();
        let ghost gp = |t: T| self.predicate.test(t);
        let w = TakeWhileConsumer {
            predicate: self.predicate,
            inner: consumer,
            base: Ghost(c0.taken()),
            hist: Ghost(Seq::empty()),
            tst: Ghost(gp),
        };
        let ghost w0 = w;
        proof {
            assert(c0.taken() + while_front(Seq::<T>::empty(), gp) =~= c0.taken());
        }
        let w2 = self.iter.traverse(w);
        proof {
            let k = choose|k: int| is_push_prefix(w0, w2, up, k);
            let pre = up.subrange(0, k);
            assert(w2.hist@ =~= pre);
            lemma_first_fail(up, gp);
            lemma_first_fail_prefix(up, gp, k);
            let b = first_fail(up, gp);
            let m = min(b, k);
            assert(self0.elems().subrange(0, m) =~= while_front(pre, gp));
            if m < self0.elems().len() {
                assert(m == k && k < b);
                assert(k < up.len());
                assert(w2.stopped());
                assert(first_fail(pre, gp) == k);
                assert(w2.inner.stopped());
            }
            assert(is_push_prefix(c0, w2.inner, self0.elems(), m));
        }
        w2.inner
    }
}

} // verus!
