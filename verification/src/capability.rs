//! Capability objects standing in for the caller-supplied closures: a
//! transform, a predicate, a partial transform, a side-effecting inspector
//! and a sub-sequence producer. Each may carry internal state that changes
//! across calls, but what it computes from an element stays fixed for the
//! whole traversal, so an adaptor's elements are a function of its parts.

use vstd::prelude::*;
use crate::traversal::IntrusiveIterator;

verus! {

/// A stateful mapping from elements to elements.
pub trait Transform: Sized {
    type In;

    type Out;

    /// What the transform computes from one element.
    spec fn app(self, t: Self::In) -> Self::Out;

    /// Apply the transform. State may change; the mapping may not.
    fn call(&mut self, t: Self::In) -> (o: Self::Out)
        ensures
            o == old(self).app(t),
            forall|u: Self::In| #[trigger] final(self).app(u) == old(self).app(u),
    ;
}

/// A stateful test on elements, read through a shared borrow.
pub trait Predicate<T>: Sized {
    /// What the predicate decides about one element.
    spec fn test(self, t: T) -> bool;

    /// Evaluate the predicate. State may change; the decision may not.
    fn check(&mut self, t: &T) -> (b: bool)
        ensures
            b == old(self).test(*t),
            forall|u: T| #[trigger] final(self).test(u) == old(self).test(u),
    ;
}

/// A stateful mapping that consumes an element and may yield nothing.
pub trait PartialTransform: Sized {
    type In;

    type Out;

    /// What the transform yields, if anything, from one element.
    spec fn app(self, t: Self::In) -> Option<Self::Out>;

    /// Apply the transform. State may change; the mapping may not.
    fn call(&mut self, t: Self::In) -> (o: Option<Self::Out>)
        ensures
            o == old(self).app(t),
            forall|u: Self::In| #[trigger] final(self).app(u) == old(self).app(u),
    ;
}

/// A side-effecting observer of elements. Its model records every element
/// it was shown, so being called exactly once per element is checkable.
pub trait Inspector<T>: Sized {
    /// The elements this inspector has been shown so far, oldest first.
    spec fn observed(self) -> Seq<T>;

    /// Observe one element without changing it.
    fn note(&mut self, t: &T)
        ensures
            final(self).observed() == old(self).observed().push(*t),
    ;
}

/// A stateful mapping from elements to sub-sequences.
pub trait Emitter: Sized {
    type In;

    type Item;

    type Sub: IntrusiveIterator<Self::Item>;

    /// The elements of the sub-sequence produced from one element.
    spec fn emitted(self, t: Self::In) -> Seq<Self::Item>;

    /// Produce the sub-sequence. State may change; the mapping may not.
    fn emit(&mut self, t: Self::In) -> (u: Self::Sub)
        ensures
            u.elems() == old(self).emitted(t),
            forall|v: Self::In| #[trigger] final(self).emitted(v) == old(self).emitted(v),
    ;
}

/// Multiplies each element by a fixed factor, wrapping on overflow.
pub struct ScaleWrap {
    pub factor: i64,
}

impl Transform for ScaleWrap {
    type In = i64;

    type Out = i64;

    open spec fn app(self, t: i64) -> i64 {
        t.wrapping_mul(self.factor)
    }

    fn call(&mut self, t: i64) -> (o: i64) {
        t.wrapping_mul(self.factor)
    }
}

/// Scales like `ScaleWrap` while keeping a running tally of how many
/// elements it has transformed: its state changes across calls within a
/// traversal, but the mapping it computes never does.
pub struct TalliedScale {
    pub factor: i64,
    pub calls: u64,
}

impl Transform for TalliedScale {
    type In = i64;

    type Out = i64;

    open spec fn app(self, t: i64) -> i64 {
        t.wrapping_mul(self.factor)
    }

    fn call(&mut self, t: i64) -> (o: i64) {
        if self.calls < u64::MAX {
            self.calls = self.calls + 1;
        }
        t.wrapping_mul(self.factor)
    }
}

/// Keeps the even numbers.
pub struct EvenOnly;

impl Predicate<i64> for EvenOnly {
    open spec fn test(self, t: i64) -> bool {
        t % 2 == 0
    }

    fn check(&mut self, t: &i64) -> (b: bool) {
        *t % 2 == 0
    }
}

/// Keeps the numbers below a fixed bound.
pub struct Below {
    pub bound: i64,
}

impl Predicate<i64> for Below {
    open spec fn test(self, t: i64) -> bool {
        t < self.bound
    }

    fn check(&mut self, t: &i64) -> (b: bool) {
        *t < self.bound
    }
}

/// Inverts another predicate.
pub struct Negate<P> {
    pub inner: P,
}

impl<T, P: Predicate<T>> Predicate<T> for Negate<P> {
    open spec fn test(self, t: T) -> bool {
        !self.inner.test(t)
    }

    fn check(&mut self, t: &T) -> (b: bool) {
        let b = self.inner.check(t);
        !b
    }
}

/// Keeps the even numbers, halved.
pub struct HalfEvens;

impl PartialTransform for HalfEvens {
    type In = i64;

    type Out = i64;

    open spec fn app(self, t: i64) -> Option<i64> {
        if t % 2 == 0 {
            Some((t / 2) as i64)
        } else {
            None
        }
    }

    fn call(&mut self, t: i64) -> (o: Option<i64>) {
        if t % 2 == 0 {
            Some(t / 2)
        } else {
            None
        }
    }
}

/// Emits each element twice, as a two-element sub-sequence.
pub struct Duplicate;

impl Emitter for Duplicate {
    type In = i64;

    type Item = i64;

    type Sub = Vec<i64>;

    open spec fn emitted(self, t: i64) -> Seq<i64> {
        seq![t, t]
    }

    fn emit(&mut self, t: i64) -> (u: Vec<i64>) {
        let mut v: Vec<i64> = Vec::new();
        v.push(t);
        v.push(t);
        proof {
            assert(v@ =~= seq![t, t]);
        }
        v
    }
}

/// An inspector that only records what it is shown.
pub struct Probe<T> {
    pub log: Ghost<Seq<T>>,
}

impl<T> Probe<T> {
    /// A probe that has seen nothing yet.
    pub fn new() -> (r: Self)
        ensures
            r.observed() == Seq::<T>::empty(),
    {
        Probe { log: Ghost(Seq::empty()) }
    }
}

impl<T> Inspector<T> for Probe<T> {
    open spec fn observed(self) -> Seq<T> {
        self.log@
    }

    fn note(&mut self, t: &T) {
        let ghost g = self.log@.push(*t);
        self.log = Ghost(g);
    }
}

} // verus!
