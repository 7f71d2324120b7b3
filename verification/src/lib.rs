pub mod model;
pub mod remainder;

use crate::model::after;
use crate::model::before;
use crate::model::others;
use crate::model::rejoin;
use crate::remainder::Remainder;
use vstd::prelude::*;

verus! {

/// Collections that can lend out one element and, at the same time, all the
/// others.
///
/// `index` must name an element: `index < len`. The position one past the
/// last element names none, so it is excluded like any other position out of
/// range; callers that cannot rule it out have to test for it first.
///
/// Both methods hand out references into the collection itself. What the
/// collection holds once they are given back is the prefix, the focal element
/// and the suffix as the caller left them, in that order.
pub trait Splittable<T>: View<V = Seq<T>> {
    /// Lends out the element at `index` together with a pass over all the
    /// other elements, those before `index` first.
    fn extract_at_index_mut_iter<'a>(&'a mut self, index: usize) -> (ret: (
        &'a mut T,
        Remainder<'a, T>,
    ))
        requires
            index < old(self)@.len(),
        ensures
            *ret.0 == old(self)@[index as int],
            ret.1.prefix@ == before(old(self)@, index as int),
            ret.1.suffix@ == after(old(self)@, index as int),
            ret.1.pending() == others(old(self)@, index as int),
            ret.1.pending().len() == old(self)@.len() - 1,
            final(self)@ == rejoin(final(ret.1.prefix)@, *final(ret.0), final(ret.1.suffix)@),
    ;

    /// Lends out the element at `index` together with the run of elements
    /// before it and the run of elements after it.
    fn extract_at_index_mut<'a>(&'a mut self, index: usize) -> (ret: (
        &'a mut T,
        (&'a mut [T], &'a mut [T]),
    ))
        requires
            index < old(self)@.len(),
        ensures
            *ret.0 == old(self)@[index as int],
            ret.1.0@ == before(old(self)@, index as int),
            ret.1.1@ == after(old(self)@, index as int),
            ret.1.0@.len() + ret.1.1@.len() == old(self)@.len() - 1,
            final(self)@ == rejoin(final(ret.1.0)@, *final(ret.0), final(ret.1.1)@),
    ;
}

impl<T> Splittable<T> for [T] {
    fn extract_at_index_mut<'a>(&'a mut self, index: usize) -> (ret: (
        &'a mut T,
        (&'a mut [T], &'a mut [T]),
    )) {
        // One path for every position: at the first one `prefix` comes out
        // empty, at the last one `suffix` does. Both are cut from `self`, so
        // that each of them, empty or not, is a part of what `self` ends as.
        let (prefix, tail) = self.split_at_mut(index);
        let (head, suffix) = tail.split_at_mut(1);
        let focal = head.first_mut().unwrap();
        (focal, (prefix, suffix))
    }

    fn extract_at_index_mut_iter<'a>(&'a mut self, index: usize) -> (ret: (
        &'a mut T,
        Remainder<'a, T>,
    )) {
        let (focal, (prefix, suffix)) = self.extract_at_index_mut(index);
        (focal, Remainder { prefix, suffix })
    }
}

impl<T> Splittable<T> for Vec<T> {
    fn extract_at_index_mut<'a>(&'a mut self, index: usize) -> (ret: (
        &'a mut T,
        (&'a mut [T], &'a mut [T]),
    )) {
        self.as_mut_slice().extract_at_index_mut(index)
    }

    fn extract_at_index_mut_iter<'a>(&'a mut self, index: usize) -> (ret: (
        &'a mut T,
        Remainder<'a, T>,
    )) {
        self.as_mut_slice().extract_at_index_mut_iter(index)
    }
}

} // verus!
