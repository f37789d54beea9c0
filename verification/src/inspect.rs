//! An adaptor that shows each element to an observer before forwarding it.

use vstd::prelude::*;
use crate::traversal::{Consumer, IntrusiveIterator, is_push_prefix};
use crate::capability::Inspector;

verus! {

/// A sequence with the same elements as another, whose traversal shows
/// every element it reaches to an inspector, exactly once, before
/// forwarding it unchanged. Stop signals pass through untouched.
pub struct Inspect<I, F> {
    pub iter: I,
    pub closure: F,
}

/// The consumer `Inspect` hands upstream: observe, then forward.
struct InspectConsumer<T, F, C> {
    closure: F,
    inner: C,
    base: Ghost<Seq<T>>,
    seen: Ghost<Seq<T>>,
}

impl<T, F: Inspector<T>, C: Consumer<T>> Consumer<T> for InspectConsumer<T, F, C> {
    type Frame = (Seq<T>, Seq<T>, C::Frame);

    closed spec fn frame(self) -> (Seq<T>, Seq<T>, C::Frame) {
        (self.base@, self.seen@, self.inner.frame())
    }

    closed spec fn inv(self) -> bool {
        &&& self.inner.inv()
        &&& self.inner.taken() == self.base@ + self.taken()
        &&& self.closure.observed() == self.seen@ + self.taken()
    }

    closed spec fn taken(self) -> Seq<T> {
        self.inner.taken().skip(self.base@.len() as int)
    }

    closed spec fn stopped(self) -> bool {
        self.inner.stopped()
    }

    fn consume(self, t: T) -> (r: (Self, bool)) {
        let InspectConsumer { mut closure, inner, base, seen } = self;
        let ghost pre = inner.taken().skip(base@.len() as int);
        closure.note(&t);
        let ghost t0 = t;
        let r = inner.consume(t);
        let w = InspectConsumer { closure, inner: r.0, base, seen };
        proof {
            assert(r.0.taken().skip(base@.len() as int) =~= pre.push(t0));
            assert(base@ + pre.push(t0) =~= (base@ + pre).push(t0));
            assert(seen@ + pre.push(t0) =~= (seen@ + pre).push(t0));
        }
        (w, r.1)
    }
}

impl<T, I, F> IntrusiveIterator<T> for Inspect<I, F> where
    I: IntrusiveIterator<T>,
    F: Inspector<T>,
 {
    open spec fn elems(self) -> Seq<T> {
        self.iter.elems()
    }

    fn traverse<C: Consumer<T>>(self, consumer: C) -> (out: C) {
        let ghost self0 = self;
        let ghost c0 = consumer;
        let ghost up = self.iter.elems();
        let ghost obs = self.closure.observed();
        let w = InspectConsumer {
            closure: self.closure,
            inner: consumer,
            base: Ghost(c0.taken()),
            seen: Ghost(obs),
        };
        let ghost w0 = w;
        proof {
            assert(c0.taken().skip(c0.taken().len() as int) =~= Seq::<T>::empty());
            assert(c0.taken() + Seq::<T>::empty() =~= c0.taken());
            assert(obs + Seq::<T>::empty() =~= obs);
        }
        let w2 = self.iter.traverse(w);
        proof {
            let k = choose|k: int| is_push_prefix(w0, w2, up, k);
            assert(w0.taken() =~= Seq::<T>::empty());
            assert(Seq::<T>::empty() + up.subrange(0, k) =~= up.subrange(0, k));
            assert(is_push_prefix(c0, w2.inner, self0.elems(), k));
        }
        w2.inner
    }
}

} // verus!
