//! An adaptor that keeps only the elements a predicate accepts.

use vstd::prelude::*;
use crate::traversal::{Consumer, IntrusiveIterator, is_push_prefix};
use crate::capability::Predicate;

verus! {

/// A sequence holding the elements of another sequence that satisfy a
/// predicate. Suppressed elements never reach the downstream consumer,
/// and a suppressed element always answers "continue" upstream.
pub struct Filter<I, P> {
    pub iter: I,
    pub predicate: P,
}

/// The consumer `Filter` hands upstream: test, then forward or suppress.
#[verifier::reject_recursive_types(T)]
struct FilterConsumer<T, P, C> {
    predicate: P,
    inner: C,
    base: Ghost<Seq<T>>,
    hist: Ghost<Seq<T>>,
    tst: Ghost<spec_fn(T) -> bool>,
}

impl<T, P: Predicate<T>, C: Consumer<T>> Consumer<T> for FilterConsumer<T, P, C> {
    type Frame = (Seq<T>, spec_fn(T) -> bool, C::Frame);

    closed spec fn frame(self) -> (Seq<T>, spec_fn(T) -> bool, C::Frame) {
        (self.base@, self.tst@, self.inner.frame())
    }

    closed spec fn inv(self) -> bool {
        &&& self.inner.inv()
        &&& (forall|t: T| #[trigger] self.predicate.test(t) == self.tst@(t))
        &&& self.inner.taken() == self.base@ + self.hist@.filter(self.tst@)
    }

    closed spec fn taken(self) -> Seq<T> {
        self.hist@
    }

    closed spec fn stopped(self) -> bool {
        self.inner.stopped()
    }

    fn consume(self, t: T) -> (r: (Self, bool)) {
        let FilterConsumer { mut predicate, inner, base, hist, tst } = self;
        let ghost t0 = t;
        proof {
            hist@.lemma_filter_push(t0, tst@);
        }
        let keep = predicate.check(&t);
        if keep {
            let r = inner.consume(t);
            let w = FilterConsumer {
                predicate,
                inner: r.0,
                base,
                hist: Ghost(hist@.push(t0)),
                tst,
            };
            proof {
                assert((base@ + hist@.filter(tst@)).push(t0)
                    =~= base@ + hist@.filter(tst@).push(t0));
            }
            (w, r.1)
        } else {
            let w = FilterConsumer {
                predicate,
                inner,
                base,
                hist: Ghost(hist@.push(t0)),
                tst,
            };
            (w, false)
        }
    }
}

impl<T, I, P> IntrusiveIterator<T> for Filter<I, P> where
    I: IntrusiveIterator<T>,
    P: Predicate<T>,
 {
    open spec fn elems(self) -> Seq<T> {
        self.iter.elems().filter(|t: T| self.predicate.test(t))
    }

    fn traverse<C: Consumer<T>>(self, consumer: C) -> (out: C) {
        let ghost self0 = self;
        let ghost c0 = consumer;
        let ghost up = self.iter.elems();
        let ghost gp = |t: T| self.predicate.test(t);
        let w = FilterConsumer {
            predicate: self.predicate,
            inner: consumer,
            base: Ghost(c0.taken()),
            hist: Ghost(Seq::empty()),
            tst: Ghost(gp),
        };
        let ghost w0 = w;
        proof {
            assert(Seq::<T>::empty().filter(gp) =~= Seq::<T>::empty()) by {
                reveal(Seq::filter);
            }
            assert(c0.taken() + Seq::<T>::empty().filter(gp) =~= c0.taken());
        }
        let w2 = self.iter.traverse(w);
        proof {
            let k = choose|k: int| is_push_prefix(w0, w2, up, k);
            let pre = up.subrange(0, k);
            let rest = up.subrange(k, up.len() as int);
            assert(w2.hist@ =~= pre);
            assert(pre + rest =~= up);
            Seq::filter_distributes_over_add(pre, rest, gp);
            let m = pre.filter(gp).len() as int;
            assert(self0.elems() == pre.filter(gp) + rest.filter(gp));
            assert(self0.elems().subrange(0, m) =~= pre.filter(gp));
            if m < self0.elems().len() {
                assert(rest.filter(gp).len() > 0);
                assert(rest.len() > 0) by {
                    rest.lemma_filter_len(gp);
                }
                assert(w2.stopped());
            }
            assert(is_push_prefix(c0, w2.inner, self0.elems(), m));
        }
        w2.inner
    }
}

} // verus!
