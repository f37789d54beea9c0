//! Extension methods for push-traversable sequences: the combinator
//! constructors and the two terminal operations.

use vstd::prelude::*;
use vstd::math::min;
use crate::traversal::{
    Consumer, FromIntrusiveIterator, IntrusiveIterator, is_push_prefix, pushed,
};
use crate::capability::{Emitter, Inspector, PartialTransform, Predicate, Transform};
use crate::mapped::Mapped;
use crate::filter::Filter;
use crate::filter_map::FilterMap;
use crate::enumerate::Enumerate;
use crate::skip::Skip;
use crate::take::Take;
use crate::skip_while::SkipWhile;
use crate::take_while::TakeWhile;
use crate::inspect::Inspect;
use crate::chain::Chain;
use crate::flat_map::FlatMap;

verus! {

/// The consumer behind `count`: tally every element, stopping only at
/// the counter's ceiling, which no sequence that fits in memory reaches.
struct CountConsumer<T> {
    count: usize,
    hist: Ghost<Seq<T>>,
}

impl<T> Consumer<T> for CountConsumer<T> {
    type Frame = ();

    closed spec fn frame(self) -> () {
        ()
    }

    closed spec fn inv(self) -> bool {
        &&& self.hist@.len() <= usize::MAX as int
        &&& self.count == self.hist@.len()
    }

    closed spec fn taken(self) -> Seq<T> {
        self.hist@
    }

    closed spec fn stopped(self) -> bool {
        self.hist@.len() == usize::MAX as int
    }

    fn consume(self, t: T) -> (r: (Self, bool)) {
        let c = self.count + 1;
        let w = CountConsumer { count: c, hist: Ghost(self.hist@.push(t)) };
        (w, c == usize::MAX)
    }
}

/// Extension methods for Intrusive Iterators: every method is available
/// on any value satisfying the base traversal capability. Each combinator
/// consumes the upstream sequence and returns the wrapping adaptor; the
/// two terminal operations drive the traversal instead.
pub trait IntrusiveIteratorExt<T>: IntrusiveIterator<T> {
    /// Send every element through a transform.
    fn map<F: Transform<In = T>>(self, f: F) -> (r: Mapped<Self, F>)
        ensures
            r == (Mapped { iter: self, transform: f }),
    ;

    /// Keep only the elements a predicate accepts.
    fn filter<P: Predicate<T>>(self, pred: P) -> (r: Filter<Self, P>)
        ensures
            r == (Filter { iter: self, predicate: pred }),
    ;

    /// Transform elements, dropping those the transform yields nothing for.
    fn filter_map<F: PartialTransform<In = T>>(self, pred: F) -> (r: FilterMap<Self, F>)
        ensures
            r == (FilterMap { iter: self, predicate: pred }),
    ;

    /// Pair every element with its zero-based position.
    fn enumerate(self) -> (r: Enumerate<Self>)
        ensures
            r == (Enumerate(self)),
    ;

    /// Suppress the first `n` elements.
    fn skip(self, n: usize) -> (r: Skip<Self>)
        ensures
            r == (Skip { iter: self, n }),
    ;

    /// Forward at most the first `n` elements, then stop the traversal.
    fn take(self, n: usize) -> (r: Take<Self>)
        ensures
            r == (Take { iter: self, n }),
    ;

    /// Suppress elements while a predicate holds, and the first element
    /// that fails it as well.
    fn skip_while<P: Predicate<T>>(self, pred: P) -> (r: SkipWhile<Self, P>)
        ensures
            r == (SkipWhile { iter: self, predicate: pred }),
    ;

    /// Forward elements while a predicate holds, then stop the traversal.
    fn take_while<P: Predicate<T>>(self, pred: P) -> (r: TakeWhile<Self, P>)
        ensures
            r == (TakeWhile { iter: self, predicate: pred }),
    ;

    /// Show every element to an inspector before forwarding it unchanged.
    fn inspect<F: Inspector<T>>(self, f: F) -> (r: Inspect<Self, F>)
        ensures
            r == (Inspect { iter: self, closure: f }),
    ;

    /// Splice together the sub-sequences a producer emits per element.
    fn flat_map<F: Emitter<In = T>>(self, f: F) -> (r: FlatMap<Self, F>)
        ensures
            r == (FlatMap { iter: self, producer: f }),
    ;

    /// This sequence's elements, then another's.
    fn chain<O: IntrusiveIterator<T>>(self, other: O) -> (r: Chain<Self, O>)
        ensures
            r == (Chain { one: self, two: other }),
    ;

    /// Traverse to completion and report how many elements were emitted;
    /// a count past the machine's word size saturates at its maximum.
    fn count(self) -> (r: usize)
        ensures
            r as int == min(self.elems().len() as int, usize::MAX as int),
    ;

    /// Traverse to completion and build a container from the elements.
    fn collect<D: FromIntrusiveIterator<T>>(self) -> (r: D)
        ensures
            r.model() == self.elems(),
    ;
}

impl<T, I: IntrusiveIterator<T>> IntrusiveIteratorExt<T> for I {
    fn map<F: Transform<In = T>>(self, f: F) -> (r: Mapped<Self, F>) {
        Mapped { iter: self, transform: f }
    }

    fn filter<P: Predicate<T>>(self, pred: P) -> (r: Filter<Self, P>) {
        Filter { iter: self, predicate: pred }
    }

    fn filter_map<F: PartialTransform<In = T>>(self, pred: F) -> (r: FilterMap<Self, F>) {
        FilterMap { iter: self, predicate: pred }
    }

    fn enumerate(self) -> (r: Enumerate<Self>) {
        Enumerate(self)
    }

    fn skip(self, n: usize) -> (r: Skip<Self>) {
        Skip { iter: self, n }
    }

    fn take(self, n: usize) -> (r: Take<Self>) {
        Take { iter: self, n }
    }

    fn skip_while<P: Predicate<T>>(self, pred: P) -> (r: SkipWhile<Self, P>) {
        SkipWhile { iter: self, predicate: pred }
    }

    fn take_while<P: Predicate<T>>(self, pred: P) -> (r: TakeWhile<Self, P>) {
        TakeWhile { iter: self, predicate: pred }
    }

    fn inspect<F: Inspector<T>>(self, f: F) -> (r: Inspect<Self, F>) {
        Inspect { iter: self, closure: f }
    }

    fn flat_map<F: Emitter<In = T>>(self, f: F) -> (r: FlatMap<Self, F>) {
        FlatMap { iter: self, producer: f }
    }

    fn chain<O: IntrusiveIterator<T>>(self, other: O) -> (r: Chain<Self, O>) {
        Chain { one: self, two: other }
    }

    fn count(self) -> (r: usize) {
        let ghost self0 = self;
        let c: CountConsumer<T> = CountConsumer { count: 0, hist: Ghost(Seq::empty()) };
        let ghost c0 = c;
        let out = self.traverse(c);
        proof {
            let k = choose|k: int| is_push_prefix(c0, out, self0.elems(), k);
            assert(Seq::<T>::empty() + self0.elems().subrange(0, k)
                =~= self0.elems().subrange(0, k));
        }
        out.count
    }

    fn collect<D: FromIntrusiveIterator<T>>(self) -> (r: D) {
        <D as FromIntrusiveIterator<T>>::collect(self)
    }
}

} // verus!
