//! The base traversal contract: producers, consumers and collectors.

use vstd::prelude::*;

verus! {

/// A per-element callback with internal state. A producer hands the
/// consumer one element at a time; the consumer answers with a stop flag,
/// and a true flag asks the producer to end traversal at once.
pub trait Consumer<T>: Sized {
    /// The part of the consumer that accepting elements never changes:
    /// its configuration, as opposed to its running state.
    type Frame;

    /// The fixed configuration this consumer was set up with.
    spec fn frame(self) -> Self::Frame;

    /// The abstraction relation the consumer maintains across calls.
    spec fn inv(self) -> bool;

    /// The elements this consumer has accepted so far, oldest first.
    spec fn taken(self) -> Seq<T>;

    /// Whether this consumer has requested that traversal stop.
    spec fn stopped(self) -> bool;

    /// Accept one element; the returned flag requests early termination.
    fn consume(self, t: T) -> (r: (Self, bool))
        requires
            self.inv(),
            !self.stopped(),
        ensures
            r.0.inv(),
            r.0.frame() == self.frame(),
            r.0.taken() == self.taken().push(t),
            r.1 == r.0.stopped(),
    ;
}

/// One complete traversal handed the consumer exactly the prefix of `s` of
/// length `k`, and ended before the end of `s` only on the consumer's own
/// stop request.
pub open spec fn is_push_prefix<T, C: Consumer<T>>(pre: C, post: C, s: Seq<T>, k: int) -> bool {
    &&& 0 <= k <= s.len()
    &&& post.taken() == pre.taken() + s.subrange(0, k)
    &&& k < s.len() ==> post.stopped()
}

/// What any traversal of a sequence with elements `s` does to a consumer:
/// it pushes some prefix of `s`, all of it unless the consumer stopped it.
pub open spec fn pushed<T, C: Consumer<T>>(pre: C, post: C, s: Seq<T>) -> bool {
    exists|k: int| is_push_prefix(pre, post, s, k)
}

/// A consumer that never asked to stop was handed every element.
pub proof fn lemma_pushed_all<T, C: Consumer<T>>(pre: C, post: C, s: Seq<T>)
    requires
        pushed(pre, post, s),
        !post.stopped(),
    ensures
        post.taken() == pre.taken() + s,
{
    let k = choose|k: int| is_push_prefix(pre, post, s, k);
    assert(s.subrange(0, s.len() as int) =~= s);
}

/// A traversal falls short of the whole sequence only on the consumer's
/// own stop request: no adaptor layer and no producer may end it, or do
/// any further work, of its own accord.
pub proof fn lemma_short_means_stopped<T, C: Consumer<T>>(pre: C, post: C, s: Seq<T>)
    requires
        pushed(pre, post, s),
        post.taken().len() < pre.taken().len() + s.len(),
    ensures
        post.stopped(),
{
    let k = choose|k: int| is_push_prefix(pre, post, s, k);
}

/// A sequence traversed by pushing: it feeds its elements, in order, to a
/// consumer, and ends early the first time the consumer's flag is true.
pub trait IntrusiveIterator<T>: Sized {
    /// The elements this sequence would emit, in emission order.
    spec fn elems(self) -> Seq<T>;

    /// Push every element into `consumer`, in order, stopping at once
    /// if a call to `consume` returns true.
    fn traverse<C: Consumer<T>>(self, consumer: C) -> (out: C)
        requires
            consumer.inv(),
            !consumer.stopped(),
        ensures
            out.inv(),
            out.frame() == consumer.frame(),
            pushed(consumer, out, self.elems()),
    ;
}

/// A container that can be built from a complete push traversal.
pub trait FromIntrusiveIterator<T>: Sized {
    /// The elements the built container holds, in insertion order.
    spec fn model(self) -> Seq<T>;

    /// Build the container by running the sequence's traversal.
    fn collect<I: IntrusiveIterator<T>>(iter: I) -> (r: Self)
        ensures
            r.model() == iter.elems(),
    ;
}

impl<T> IntrusiveIterator<T> for Vec<T> {
    open spec fn elems(self) -> Seq<T> {
        self@
    }

    fn traverse<C: Consumer<T>>(self, consumer: C) -> (out: C) {
        let ghost c0 = consumer;
        let ghost all = self@;
        let mut v = self;
        let mut c = consumer;
        let mut stop = false;
        proof {
            assert(all.subrange(0, all.len() as int) =~= all);
            assert(c.taken() + all.subrange(0, 0) =~= c.taken());
        }
        while v.len() > 0 && !stop
            invariant
                c.inv(),
                c.frame() == c0.frame(),
                stop == c.stopped(),
                v@.len() <= all.len(),
                v@ == all.subrange(all.len() - v@.len(), all.len() as int),
                c.taken() == c0.taken() + all.subrange(0, all.len() - v@.len()),
            decreases v.len(),
        {
            let ghost k = all.len() - v@.len();
            let t = v.remove(0);
            proof {
                assert(t == all[k]);
                assert(v@ =~= all.subrange(k + 1, all.len() as int));
            }
            let r = c.consume(t);
            c = r.0;
            stop = r.1;
            proof {
                assert((c0.taken() + all.subrange(0, k)).push(all[k])
                    =~= c0.taken() + all.subrange(0, k + 1));
            }
        }
        proof {
            let k = all.len() - v@.len();
            assert(is_push_prefix(c0, c, all, k as int));
        }
        c
    }
}

/// A consumer that mirrors another and keeps an executable copy of its
/// stop flag, so the code around a traversal can branch on whether the
/// traversal ended by an explicit stop or by running out of elements.
pub(crate) struct StopTracked<C> {
    pub(crate) inner: C,
    pub(crate) flag: bool,
}

impl<T, C: Consumer<T>> Consumer<T> for StopTracked<C> {
    type Frame = C::Frame;

    closed spec fn frame(self) -> C::Frame {
        self.inner.frame()
    }

    closed spec fn inv(self) -> bool {
        &&& self.inner.inv()
        &&& self.flag == self.inner.stopped()
    }

    closed spec fn taken(self) -> Seq<T> {
        self.inner.taken()
    }

    closed spec fn stopped(self) -> bool {
        self.inner.stopped()
    }

    fn consume(self, t: T) -> (r: (Self, bool)) {
        let r = self.inner.consume(t);
        (StopTracked { inner: r.0, flag: r.1 }, r.1)
    }
}

/// What the mirror consumer's abstraction means, spelled out for the
/// adaptors that build one.
pub(crate) proof fn lemma_stop_tracked<T, C: Consumer<T>>(w: StopTracked<C>)
    ensures
        <StopTracked<C> as Consumer<T>>::inv(w) == (w.inner.inv() && w.flag
            == w.inner.stopped()),
        <StopTracked<C> as Consumer<T>>::taken(w) == w.inner.taken(),
        <StopTracked<C> as Consumer<T>>::stopped(w) == w.inner.stopped(),
        <StopTracked<C> as Consumer<T>>::frame(w) == w.inner.frame(),
{
}

/// The consumer behind building a `Vec`: append every element, never stop.
struct VecConsumer<T> {
    vec: Vec<T>,
}

impl<T> Consumer<T> for VecConsumer<T> {
    type Frame = ();

    closed spec fn frame(self) -> () {
        ()
    }

    closed spec fn inv(self) -> bool {
        true
    }

    closed spec fn taken(self) -> Seq<T> {
        self.vec@
    }

    closed spec fn stopped(self) -> bool {
        false
    }

    fn consume(self, t: T) -> (r: (Self, bool)) {
        let mut v = self.vec;
        v.push(t);
        (VecConsumer { vec: v }, false)
    }
}

impl<T> FromIntrusiveIterator<T> for Vec<T> {
    open spec fn model(self) -> Seq<T> {
        self@
    }

    fn collect<I: IntrusiveIterator<T>>(iter: I) -> (r: Self) {
        let ghost i0 = iter;
        let c: VecConsumer<T> = VecConsumer { vec: Vec::new() };
        let ghost c0 = c;
        let out = iter.traverse(c);
        proof {
            lemma_pushed_all(c0, out, i0.elems());
            assert(Seq::<T>::empty() + i0.elems() =~= i0.elems());
        }
        out.vec
    }
}

} // verus!
