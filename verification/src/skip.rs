//! An adaptor that suppresses a fixed number of leading elements.

use vstd::prelude::*;
use vstd::math::min;
use crate::traversal::{Consumer, IntrusiveIterator, is_push_prefix};

verus! {

/// What is left of `s` after suppressing its first `n` elements; all of
/// `s` is suppressed when `n` reaches past its end.
pub open spec fn skip_front<T>(s: Seq<T>, n: int) -> Seq<T> {
    s.subrange(min(n, s.len() as int), s.len() as int)
}

/// A sequence holding the elements of another sequence after its first
/// `n`. Every suppressed element answers "continue" upstream, so a short
/// upstream still ends cleanly with nothing forwarded.
pub struct Skip<I> {
    pub iter: I,
    pub n: usize,
}

/// The consumer `Skip` hands upstream: count off `n` elements, then
/// forward the rest.
struct SkipConsumer<T, C> {
    inner: C,
    n: usize,
    counter: usize,
    base: Ghost<Seq<T>>,
    hist: Ghost<Seq<T>>,
}

impl<T, C: Consumer<T>> Consumer<T> for SkipConsumer<T, C> {
    type Frame = (Seq<T>, int, C::Frame);

    closed spec fn frame(self) -> (Seq<T>, int, C::Frame) {
        (self.base@, self.n as int, self.inner.frame())
    }

    closed spec fn inv(self) -> bool {
        &&& self.inner.inv()
        &&& self.counter == min(self.hist@.len() as int, self.n as int)
        &&& self.inner.taken() == self.base@ + skip_front(self.hist@, self.n as int)
    }

    closed spec fn taken(self) -> Seq<T> {
        self.hist@
    }

    closed spec fn stopped(self) -> bool {
        self.inner.stopped()
    }

    fn consume(self, t: T) -> (r: (Self, bool)) {
        let SkipConsumer { inner, n, counter, base, hist } = self;
        let ghost t0 = t;
        if counter != n {
            let w = SkipConsumer {
                inner,
                n,
                counter: counter + 1,
                base,
                hist: Ghost(hist@.push(t0)),
            };
            proof {
                assert(skip_front(hist@.push(t0), n as int) =~= skip_front(hist@, n as int));
            }
            (w, false)
        } else {
            let r = inner.consume(t);
            let w = SkipConsumer {
                inner: r.0,
                n,
                counter,
                base,
                hist: Ghost(hist@.push(t0)),
            };
            proof {
                assert(skip_front(hist@.push(t0), n as int)
                    =~= skip_front(hist@, n as int).push(t0));
                assert((base@ + skip_front(hist@, n as int)).push(t0)
                    =~= base@ + skip_front(hist@, n as int).push(t0));
            }
            (w, r.1)
        }
    }
}

impl<T, I> IntrusiveIterator<T> for Skip<I> where I: IntrusiveIterator<T> {
    open spec fn elems(self) -> Seq<T> {
        skip_front(self.iter.elems(), self.n as int)
    }

    fn traverse<C: Consumer<T>>(self, consumer: C) -> (out: C) {
        let ghost self0 = self;
        let ghost c0 = consumer;
        let ghost up = self.iter.elems();
        let w = SkipConsumer {
            inner: consumer,
            n: self.n,
            counter: 0,
            base: Ghost(c0.taken()),
            hist: Ghost(Seq::empty()),
        };
        let ghost w0 = w;
        proof {
            assert(c0.taken() + skip_front(Seq::<T>::empty(), self.n as int) =~= c0.taken());
        }
        let w2 = self.iter.traverse(w);
        proof {
            let n = self0.n as int;
            let k = choose|k: int| is_push_prefix(w0, w2, up, k);
            let pre = up.subrange(0, k);
            assert(w2.hist@ =~= pre);
            let m = skip_front(pre, n).len() as int;
            assert(self0.elems().subrange(0, m) =~= skip_front(pre, n));
            if m < self0.elems().len() {
                assert(k < up.len());
                assert(w2.stopped());
            }
            assert(is_push_prefix(c0, w2.inner, self0.elems(), m));
        }
        w2.inner
    }
}

} // verus!
