//! An adaptor that produces a sub-sequence from each element and splices
//! the sub-sequences together, one level deep.

use vstd::prelude::*;
use crate::traversal::{
    Consumer, IntrusiveIterator, StopTracked, is_push_prefix, lemma_stop_tracked,
};
use crate::capability::Emitter;

verus! {

/// The splice of all the sub-sequences a producer emits along `s`.
pub open spec fn spliced<T, O>(s: Seq<T>, g: spec_fn(T) -> Seq<O>) -> Seq<O> {
    s.map_values(g).flatten()
}

/// A sequence holding, in order, the elements of every sub-sequence a
/// producer emits from another sequence's elements. A downstream stop
/// during a sub-sequence ends that sub-traversal and the outer one alike.
pub struct FlatMap<I, F> {
    pub iter: I,
    pub producer: F,
}

/// The consumer `FlatMap` hands upstream: produce the sub-sequence,
/// traverse it into the downstream consumer, and report whether the
/// downstream asked to stop.
struct FlatMapConsumer<F: Emitter, C> {
    producer: F,
    inner: C,
    base: Ghost<Seq<F::Item>>,
    hist: Ghost<Seq<F::In>>,
    got: Ghost<Seq<F::Item>>,
    emi: Ghost<spec_fn(F::In) -> Seq<F::Item>>,
}

impl<F: Emitter, C: Consumer<F::Item>> Consumer<F::In> for FlatMapConsumer<F, C> {
    type Frame = (Seq<F::Item>, spec_fn(F::In) -> Seq<F::Item>, C::Frame);

    closed spec fn frame(self) -> (Seq<F::Item>, spec_fn(F::In) -> Seq<F::Item>, C::Frame) {
        (self.base@, self.emi@, self.inner.frame())
    }

    closed spec fn inv(self) -> bool {
        &&& self.inner.inv()
        &&& (forall|t: F::In| #[trigger] self.producer.emitted(t) == self.emi@(t))
        &&& self.inner.taken() == self.base@ + self.got@
        &&& self.got@.len() <= spliced(self.hist@, self.emi@).len()
        &&& self.got@ == spliced(self.hist@, self.emi@).subrange(0, self.got@.len() as int)
        &&& !self.inner.stopped() ==> self.got@.len() == spliced(self.hist@, self.emi@).len()
    }

    closed spec fn taken(self) -> Seq<F::In> {
        self.hist@
    }

    closed spec fn stopped(self) -> bool {
        self.inner.stopped()
    }

    fn consume(self, t: F::In) -> (r: (Self, bool)) {
        let FlatMapConsumer { mut producer, inner, base, hist, got, emi } = self;
        let ghost t0 = t;
        let sub = producer.emit(t);
        let tr = StopTracked { inner, flag: false };
        let ghost tr0 = tr;
        proof {
            lemma_stop_tracked::<F::Item, C>(tr);
        }
        let tr2 = sub.traverse(tr);
        proof {
            lemma_stop_tracked::<F::Item, C>(tr2);
        }
        let ghost sube = emi@(t0);
        let ghost k2 = choose|k: int| is_push_prefix(tr0, tr2, sube, k);
        let w = FlatMapConsumer {
            producer,
            inner: tr2.inner,
            base,
            hist: Ghost(hist@.push(t0)),
            got: Ghost(got@ + emi@(t0).subrange(0, k2)),
            emi,
        };
        proof {
            let whole = spliced(hist@, emi@);
            let next = spliced(hist@.push(t0), emi@);
            assert(hist@.push(t0).map_values(emi@) =~= hist@.map_values(emi@).push(emi@(t0)));
            hist@.map_values(emi@).lemma_flatten_push(emi@(t0));
            assert(next =~= whole + emi@(t0));
            assert(got@ =~= whole);
            assert(base@ + got@ + emi@(t0).subrange(0, k2)
                =~= base@ + (got@ + emi@(t0).subrange(0, k2)));
            assert(got@ + emi@(t0).subrange(0, k2)
                =~= next.subrange(0, got@.len() + k2));
            if !tr2.inner.stopped() {
                assert(k2 == emi@(t0).len());
            }
        }
        (w, tr2.flag)
    }
}

impl<I, F> IntrusiveIterator<F::Item> for FlatMap<I, F> where
    F: Emitter,
    I: IntrusiveIterator<F::In>,
 {
    open spec fn elems(self) -> Seq<F::Item> {
        spliced(self.iter.elems(), |t: F::In| self.producer.emitted(t))
    }

    fn traverse<C: Consumer<F::Item>>(self, consumer: C) -> (out: C) {
        let ghost self0 = self;
        let ghost c0 = consumer;
        let ghost up = self.iter.elems();
        let ghost ge = |t: F::In| self.producer.emitted(t);
        let w = FlatMapConsumer {
            producer: self.producer,
            inner: consumer,
            base: Ghost(c0.taken()),
            hist: Ghost(Seq::empty()),
            got: Ghost(Seq::empty()),
            emi: Ghost(ge),
        };
        let ghost w0 = w;
        proof {
            assert(Seq::<F::In>::empty().map_values(ge) =~= Seq::<Seq<F::Item>>::empty());
            assert(spliced(Seq::<F::In>::empty(), ge) =~= Seq::<F::Item>::empty());
            assert(c0.taken() + Seq::<F::Item>::empty() =~= c0.taken());
            assert(Seq::<F::Item>::empty().subrange(0, 0) =~= Seq::<F::Item>::empty());
        }
        let w2 = self.iter.traverse(w);
        proof {
            let k = choose|k: int| is_push_prefix(w0, w2, up, k);
            let pre = up.subrange(0, k);
            assert(w2.hist@ =~= pre);
            assert(pre.map_values(ge) + up.subrange(k, up.len() as int).map_values(ge)
                =~= up.map_values(ge));
            vstd::seq_lib::lemma_flatten_concat(
                pre.map_values(ge),
                up.subrange(k, up.len() as int).map_values(ge),
            );
            let m = w2.got@.len() as int;
            assert(self0.elems().subrange(0, m) =~= spliced(pre, ge).subrange(0, m));
            if m < self0.elems().len() {
                if !w2.inner.stopped() {
                    assert(k == up.len());
                    assert(pre =~= up);
                    assert(m == self0.elems().len());
                }
                assert(w2.inner.stopped());
            }
            assert(is_push_prefix(c0, w2.inner, self0.elems(), m));
        }
        w2.inner
    }
}

} // verus!
