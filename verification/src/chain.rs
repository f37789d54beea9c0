//! An adaptor that traverses one sequence, then another.

use vstd::prelude::*;
use crate::traversal::{
    Consumer, IntrusiveIterator, StopTracked, is_push_prefix, lemma_pushed_all,
    lemma_stop_tracked,
};

verus! {

/// The concatenation of two sequences: every element of the first, then,
/// unless the first traversal ended on an explicit stop, every element of
/// the second. A stop during either phase ends the whole traversal.
pub struct Chain<I, O> {
    pub one: I,
    pub two: O,
}

impl<T, I, O> IntrusiveIterator<T> for Chain<I, O> where
    I: IntrusiveIterator<T>,
    O: IntrusiveIterator<T>,
 {
    open spec fn elems(self) -> Seq<T> {
        self.one.elems() + self.two.elems()
    }

    fn traverse<C: Consumer<T>>(self, consumer: C) -> (out: C) {
        let ghost self0 = self;
        let ghost c0 = consumer;
        let ghost first = self.one.elems();
        let ghost second = self.two.elems();
        let w = StopTracked { inner: consumer, flag: false };
        let ghost w0 = w;
        proof {
            lemma_stop_tracked::<T, C>(w);
        }
        let w2 = self.one.traverse(w);
        proof {
            lemma_stop_tracked::<T, C>(w2);
        }
        if w2.flag {
            proof {
                let k = choose|k: int| is_push_prefix(w0, w2, first, k);
                assert(self0.elems().subrange(0, k) =~= first.subrange(0, k));
                assert(is_push_prefix(c0, w2.inner, self0.elems(), k));
            }
            w2.inner
        } else {
            proof {
                lemma_pushed_all(w0, w2, first);
            }
            let ghost mid = w2.inner;
            let out = self.two.traverse(w2.inner);
            proof {
                let k2 = choose|k: int| is_push_prefix(mid, out, second, k);
                let m = first.len() + k2;
                assert(out.taken() =~= c0.taken() + (first + second.subrange(0, k2)));
                assert(self0.elems().subrange(0, m) =~= first + second.subrange(0, k2));
                assert(is_push_prefix(c0, out, self0.elems(), m));
            }
            out
        }
    }
}

} // verus!
