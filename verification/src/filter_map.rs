//! An adaptor that filters and maps in one pass, with one ownership
//! transfer of each element.

use vstd::prelude::*;
use crate::traversal::{Consumer, IntrusiveIterator, is_push_prefix};
use crate::capability::PartialTransform;

verus! {

/// A sequence holding, for each element of another sequence, whatever a
/// partial transform yields from it: elements answered with `None` are
/// suppressed and answer "continue" upstream.
pub struct FilterMap<I, F> {
    pub iter: I,
    pub predicate: F,
}

/// `filter_map` applied piecewise: the two halves contribute their own
/// yields, in order.
proof fn lemma_filter_map_distributes<A, B>(a: Seq<A>, b: Seq<A>, f: spec_fn(A) -> Option<B>)
    ensures
        (a + b).filter_map(f) == a.filter_map(f) + b.filter_map(f),
    decreases b.len(),
{
    if b.len() == 0 {
        assert(a + b =~= a);
        assert(a.filter_map(f) + b.filter_map(f) =~= a.filter_map(f));
    } else {
        lemma_filter_map_distributes(a, b.drop_last(), f);
        assert((a + b).drop_last() =~= a + b.drop_last());
        match f(b.last()) {
            Option::Some(s) => {
                assert((a.filter_map(f) + b.drop_last().filter_map(f)) + seq![s]
                    =~= a.filter_map(f) + (b.drop_last().filter_map(f) + seq![s]));
            },
            Option::None => {},
        }
    }
}

/// The consumer `FilterMap` hands upstream: transform, then forward the
/// yield or suppress the element.
#[verifier::reject_recursive_types(T)]
struct FilterMapConsumer<T, F: PartialTransform<In = T>, C> {
    predicate: F,
    inner: C,
    base: Ghost<Seq<F::Out>>,
    hist: Ghost<Seq<T>>,
    app: Ghost<spec_fn(T) -> Option<F::Out>>,
}

impl<T, F: PartialTransform<In = T>, C: Consumer<F::Out>> Consumer<T> for FilterMapConsumer<
    T,
    F,
    C,
> {
    type Frame = (Seq<F::Out>, spec_fn(T) -> Option<F::Out>, C::Frame);

    closed spec fn frame(self) -> (Seq<F::Out>, spec_fn(T) -> Option<F::Out>, C::Frame) {
        (self.base@, self.app@, self.inner.frame())
    }

    closed spec fn inv(self) -> bool {
        &&& self.inner.inv()
        &&& (forall|t: T| #[trigger] self.predicate.app(t) == self.app@(t))
        &&& self.inner.taken() == self.base@ + self.hist@.filter_map(self.app@)
    }

    closed spec fn taken(self) -> Seq<T> {
        self.hist@
    }

    closed spec fn stopped(self) -> bool {
        self.inner.stopped()
    }

    fn consume(self, t: T) -> (r: (Self, bool)) {
        let FilterMapConsumer { mut predicate, inner, base, hist, app } = self;
        let ghost t0 = t;
        proof {
            assert(hist@.push(t0).drop_last() =~= hist@);
        }
        match predicate.call(t) {
            Option::Some(o) => {
                let ghost o0 = o;
                let r = inner.consume(o);
                let w = FilterMapConsumer {
                    predicate,
                    inner: r.0,
                    base,
                    hist: Ghost(hist@.push(t0)),
                    app,
                };
                proof {
                    assert((base@ + hist@.filter_map(app@)).push(o0)
                        =~= base@ + (hist@.filter_map(app@) + seq![o0]));
                }
                (w, r.1)
            },
            Option::None => {
                let w = FilterMapConsumer {
                    predicate,
                    inner,
                    base,
                    hist: Ghost(hist@.push(t0)),
                    app,
                };
                (w, false)
            },
        }
    }
}

impl<T, I, F> IntrusiveIterator<F::Out> for FilterMap<I, F> where
    I: IntrusiveIterator<T>,
    F: PartialTransform<In = T>,
 {
    open spec fn elems(self) -> Seq<F::Out> {
        self.iter.elems().filter_map(|t: T| self.predicate.app(t))
    }

    fn traverse<C: Consumer<F::Out>>(self, consumer: C) -> (out: C) {
        let ghost self0 = self;
        let ghost c0 = consumer;
        let ghost up = self.iter.elems();
        let ghost gf = |t: T| self.predicate.app(t);
        let w = FilterMapConsumer {
            predicate: self.predicate,
            inner: consumer,
            base: Ghost(c0.taken()),
            hist: Ghost(Seq::empty()),
            app: Ghost(gf),
        };
        let ghost w0 = w;
        proof {
            assert(c0.taken() + Seq::<T>::empty().filter_map(gf) =~= c0.taken());
        }
        let w2 = self.iter.traverse(w);
        proof {
            let k = choose|k: int| is_push_prefix(w0, w2, up, k);
            let pre = up.subrange(0, k);
            let rest = up.subrange(k, up.len() as int);
            assert(w2.hist@ =~= pre);
            assert(pre + rest =~= up);
            lemma_filter_map_distributes(pre, rest, gf);
            let m = pre.filter_map(gf).len() as int;
            assert(self0.elems().subrange(0, m) =~= pre.filter_map(gf));
            if m < self0.elems().len() {
                assert(rest.filter_map(gf).len() > 0);
                assert(rest.len() > 0);
                assert(w2.stopped());
            }
            assert(is_push_prefix(c0, w2.inner, self0.elems(), m));
        }
        w2.inner
    }
}

} // verus!
