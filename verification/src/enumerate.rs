//! An adaptor that pairs each element with its position.

use vstd::prelude::*;
use crate::traversal::{Consumer, IntrusiveIterator, is_push_prefix};

verus! {

/// Each element of `s` paired with its zero-based index.
pub open spec fn with_index<T>(s: Seq<T>) -> Seq<(usize, T)>
    recommends
        s.len() <= usize::MAX as int + 1,
{
    Seq::new(s.len(), |i: int| (i as usize, s[i]))
}

/// A sequence pairing another sequence's elements with a zero-based
/// counter, in order. The counter lives in a machine word, so after the
/// pair carrying the largest representable index the adaptor stops the
/// traversal itself rather than wrap or overflow; no sequence that fits
/// in memory comes near that cutoff.
pub struct Enumerate<I>(pub I);

/// The consumer `Enumerate` hands upstream: forward the pair, then
/// advance the counter.
struct EnumerateConsumer<T, C> {
    inner: C,
    counter: usize,
    base: Ghost<Seq<(usize, T)>>,
    hist: Ghost<Seq<T>>,
}

impl<T, C: Consumer<(usize, T)>> Consumer<T> for EnumerateConsumer<T, C> {
    type Frame = (Seq<(usize, T)>, C::Frame);

    closed spec fn frame(self) -> (Seq<(usize, T)>, C::Frame) {
        (self.base@, self.inner.frame())
    }

    closed spec fn inv(self) -> bool {
        &&& self.inner.inv()
        &&& self.hist@.len() <= usize::MAX as int + 1
        &&& (self.hist@.len() <= usize::MAX as int ==> self.counter == self.hist@.len())
        &&& self.inner.taken() == self.base@ + with_index(self.hist@)
    }

    closed spec fn taken(self) -> Seq<T> {
        self.hist@
    }

    closed spec fn stopped(self) -> bool {
        self.inner.stopped() || self.hist@.len() == usize::MAX as int + 1
    }

    fn consume(self, t: T) -> (r: (Self, bool)) {
        let EnumerateConsumer { inner, counter, base, hist } = self;
        let ghost t0 = t;
        let r = inner.consume((counter, t));
        proof {
            assert(with_index(hist@.push(t0)) =~= with_index(hist@).push((counter, t0)));
            assert((base@ + with_index(hist@)).push((counter, t0))
                =~= base@ + with_index(hist@).push((counter, t0)));
        }
        if counter == usize::MAX {
            let w = EnumerateConsumer {
                inner: r.0,
                counter,
                base,
                hist: Ghost(hist@.push(t0)),
            };
            (w, true)
        } else {
            let w = EnumerateConsumer {
                inner: r.0,
                counter: counter + 1,
                base,
                hist: Ghost(hist@.push(t0)),
            };
            (w, r.1)
        }
    }
}

impl<T, I> IntrusiveIterator<(usize, T)> for Enumerate<I> where I: IntrusiveIterator<T> {
    open spec fn elems(self) -> Seq<(usize, T)> {
        with_index(self.0.elems().take(vstd::math::min(self.0.elems().len() as int,
        usize::MAX as int + 1)))
    }

    fn traverse<C: Consumer<(usize, T)>>(self, consumer: C) -> (out: C) {
        let ghost self0 = self;
        let ghost c0 = consumer;
        let ghost up = self.0.elems();
        let w = EnumerateConsumer {
            inner: consumer,
            counter: 0,
            base: Ghost(c0.taken()),
            hist: Ghost(Seq::empty()),
        };
        let ghost w0 = w;
        proof {
            assert(c0.taken() + with_index(Seq::<T>::empty()) =~= c0.taken());
        }
        let w2 = self.0.traverse(w);
        proof {
            let k = choose|k: int| is_push_prefix(w0, w2, up, k);
            let pre = up.subrange(0, k);
            assert(w2.hist@ =~= pre);
            assert(self0.elems().subrange(0, k) =~= with_index(pre));
            if k < self0.elems().len() {
                assert(k < up.len());
                assert(w2.stopped());
                assert(w2.inner.stopped());
            }
            assert(is_push_prefix(c0, w2.inner, self0.elems(), k));
        }
        w2.inner
    }
}

} // verus!
