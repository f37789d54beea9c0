//! An adaptor that maps a transform over another sequence's elements.

use vstd::prelude::*;
use crate::traversal::{Consumer, IntrusiveIterator, is_push_prefix};
use crate::capability::Transform;

verus! {

/// A sequence whose elements are another sequence's elements, each sent
/// through a transform. Forwards every element and every stop signal.
pub struct Mapped<I, F> {
    pub iter: I,
    pub transform: F,
}

/// The consumer `Mapped` hands upstream: transform, then forward.
struct MappedConsumer<F: Transform, C> {
    transform: F,
    inner: C,
    base: Ghost<Seq<F::Out>>,
    hist: Ghost<Seq<F::In>>,
    app: Ghost<spec_fn(F::In) -> F::Out>,
}

impl<F: Transform, C: Consumer<F::Out>> Consumer<F::In> for MappedConsumer<F, C> {
    type Frame = (Seq<F::Out>, spec_fn(F::In) -> F::Out, C::Frame);

    closed spec fn frame(self) -> (Seq<F::Out>, spec_fn(F::In) -> F::Out, C::Frame) {
        (self.base@, self.app@, self.inner.frame())
    }

    closed spec fn inv(self) -> bool {
        &&& self.inner.inv()
        &&& (forall|t: F::In| #[trigger] self.transform.app(t) == self.app@(t))
        &&& self.inner.taken() == self.base@ + self.hist@.map_values(self.app@)
    }

    closed spec fn taken(self) -> Seq<F::In> {
        self.hist@
    }

    closed spec fn stopped(self) -> bool {
        self.inner.stopped()
    }

    fn consume(self, t: F::In) -> (r: (Self, bool)) {
        let MappedConsumer { mut transform, inner, base, hist, app } = self;
        let ghost t0 = t;
        let o = transform.call(t);
        let r = inner.consume(o);
        let w = MappedConsumer {
            transform,
            inner: r.0,
            base,
            hist: Ghost(hist@.push(t0)),
            app,
        };
        proof {
            assert((base@ + hist@.map_values(app@)).push(app@(t0))
                =~= base@ + hist@.push(t0).map_values(app@));
        }
        (w, r.1)
    }
}

impl<I, F> IntrusiveIterator<F::Out> for Mapped<I, F> where
    F: Transform,
    I: IntrusiveIterator<F::In>,
 {
    open spec fn elems(self) -> Seq<F::Out> {
        self.iter.elems().map_values(|t: F::In| self.transform.app(t))
    }

    fn traverse<C: Consumer<F::Out>>(self, consumer: C) -> (out: C) {
        let ghost self0 = self;
        let ghost c0 = consumer;
        let ghost up = self.iter.elems();
        let ghost gf = |t: F::In| self.transform.app(t);
        let w = MappedConsumer {
            transform: self.transform,
            inner: consumer,
            base: Ghost(c0.taken()),
            hist: Ghost(Seq::empty()),
            app: Ghost(gf),
        };
        let ghost w0 = w;
        proof {
            assert(c0.taken() + Seq::<F::In>::empty().map_values(gf) =~= c0.taken());
        }
        let w2 = self.iter.traverse(w);
        proof {
            let k = choose|k: int| is_push_prefix(w0, w2, up, k);
            assert(w2.hist@ =~= up.subrange(0, k));
            assert(c0.taken() + up.subrange(0, k).map_values(gf)
                =~= c0.taken() + self0.elems().subrange(0, k));
            assert(is_push_prefix(c0, w2.inner, self0.elems(), k));
        }
        w2.inner
    }
}

} // verus!
