//! An adaptor that forwards at most a fixed number of leading elements.

use vstd::prelude::*;
use vstd::math::min;
use crate::traversal::{Consumer, IntrusiveIterator, is_push_prefix};

verus! {

/// The first `n` elements of `s`, or all of `s` when it is shorter.
pub open spec fn take_front<T>(s: Seq<T>, n: int) -> Seq<T> {
    s.subrange(0, min(n, s.len() as int))
}

/// A sequence holding the first `n` elements of another sequence. Once
/// its quota is reached it answers "stop" upstream of its own accord
/// rather than wait for exhaustion: the upstream ends at the first
/// element past the quota.
pub struct Take<I> {
    pub iter: I,
    pub n: usize,
}

/// The consumer `Take` hands upstream: forward `n` elements, then demand
/// a stop.
struct TakeConsumer<T, C> {
    inner: C,
    n: usize,
    counter: usize,
    base: Ghost<Seq<T>>,
    hist: Ghost<Seq<T>>,
}

impl<T, C: Consumer<T>> Consumer<T> for TakeConsumer<T, C> {
    type Frame = (Seq<T>, int, C::Frame);

    closed spec fn frame(self) -> (Seq<T>, int, C::Frame) {
        (self.base@, self.n as int, self.inner.frame())
    }

    closed spec fn inv(self) -> bool {
        &&& self.inner.inv()
        &&& self.hist@.len() <= self.n as int + 1
        &&& self.counter == min(self.hist@.len() as int, self.n as int)
        &&& self.inner.taken() == self.base@ + take_front(self.hist@, self.n as int)
    }

    closed spec fn taken(self) -> Seq<T> {
        self.hist@
    }

    closed spec fn stopped(self) -> bool {
        self.inner.stopped() || self.hist@.len() > self.n as int
    }

    fn consume(self, t: T) -> (r: (Self, bool)) {
        let TakeConsumer { inner, n, counter, base, hist } = self;
        let ghost t0 = t;
        if counter != n {
            let r = inner.consume(t);
            let w = TakeConsumer {
                inner: r.0,
                n,
                counter: counter + 1,
                base,
                hist: Ghost(hist@.push(t0)),
            };
            proof {
                assert(take_front(hist@.push(t0), n as int)
                    =~= take_front(hist@, n as int).push(t0));
                assert((base@ + take_front(hist@, n as int)).push(t0)
                    =~= base@ + take_front(hist@, n as int).push(t0));
            }
            (w, r.1)
        } else {
            let w = TakeConsumer {
                inner,
                n,
                counter,
                base,
                hist: Ghost(hist@.push(t0)),
            };
            proof {
                assert(take_front(hist@.push(t0), n as int) =~= take_front(hist@, n as int));
            }
            (w, true)
        }
    }
}

impl<T, I> IntrusiveIterator<T> for Take<I> where I: IntrusiveIterator<T> {
    open spec fn elems(self) -> Seq<T> {
        take_front(self.iter.elems(), self.n as int)
    }

    fn traverse<C: Consumer<T>>(self, consumer: C) -> (out: C) {
        let ghost self0 = self;
        let ghost c0 = consumer;
        let ghost up = self.iter.elems();
        let w = TakeConsumer {
            inner: consumer,
            n: self.n,
            counter: 0,
            base: Ghost(c0.taken()),
            hist: Ghost(Seq::empty()),
        };
        let ghost w0 = w;
        proof {
            assert(c0.taken() + take_front(Seq::<T>::empty(), self.n as int) =~= c0.taken());
        }
        let w2 = self.iter.traverse(w);
        proof {
            let n = self0.n as int;
            let k = choose|k: int| is_push_prefix(w0, w2, up, k);
            let pre = up.subrange(0, k);
            assert(w2.hist@ =~= pre);
            let m = take_front(pre, n).len() as int;
            assert(self0.elems().subrange(0, m) =~= take_front(pre, n));
            if m < self0.elems().len() {
                assert(k < n);
                assert(k < up.len());
                assert(w2.stopped());
                assert(w2.inner.stopped());
            }
            assert(is_push_prefix(c0, w2.inner, self0.elems(), m));
        }
        w2.inner
    }
}

} // verus!
